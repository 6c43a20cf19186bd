//! The table of known base game files, and the test for a name in it.

use vstd::prelude::*;
use crate::argv::value_of;
use crate::state::State;
use crate::text::{lowercase, str_eq, str_to_lowercase, views};

verus! {

/// The game that a base game file holds.
#[derive(Clone, Copy, PartialEq, Eq, Structural, Debug)]
pub enum GameMission {
    Doom,
    Doom2,
    PackTnt,
    PackPlut,
    PackChex,
    PackHacx,
}

/// The edition of the game that a base game file holds.
#[derive(Clone, Copy, PartialEq, Eq, Structural, Debug)]
pub enum GameMode {
    Shareware,
    Registered,
    Commercial,
    Retail,
    Indetermined,
}

/// A known base game file.
#[derive(Debug, PartialEq, Eq)]
pub struct Iwad {
    pub name: &'static str,
    pub mission: GameMission,
    pub mode: GameMode,
    pub description: &'static str,
}

/// The known base game files: file name in lower case, mission, mode and
/// description. The order is the order of the search.
pub const IWADS: [(&'static str, GameMission, GameMode, &'static str); 10] = [
    ("doom2.wad", GameMission::Doom2, GameMode::Commercial, "Doom II"),
    ("plutonia.wad", GameMission::PackPlut, GameMode::Commercial, "Final Doom: The Plutonia Experiment"),
    ("tnt.wad", GameMission::PackTnt, GameMode::Commercial, "Final Doom: TNT: Evilution"),
    ("doom.wad", GameMission::Doom, GameMode::Retail, "Doom"),
    ("doom1.wad", GameMission::Doom, GameMode::Shareware, "Doom Shareware"),
    ("chex.wad", GameMission::PackChex, GameMode::Retail, "Chex Quest"),
    ("hacx.wad", GameMission::PackHacx, GameMode::Commercial, "Hacx"),
    ("freedoom2.wad", GameMission::Doom2, GameMode::Commercial, "Freedoom: Phase 2"),
    ("freedoom1.wad", GameMission::Doom, GameMode::Commercial, "Freedoom: Phase 1"),
    ("freedm.wad", GameMission::Doom2, GameMode::Commercial, "FreeDM"),
];

/// Whether the characters `lower` are the file name of a known base game
/// file, letter for letter.
pub open spec fn is_iwad_file_name(lower: Seq<char>) -> bool {
    exists|i: int| 0 <= i < IWADS@.len() && (#[trigger] IWADS@[i]).0@ == lower
}

/// Whether `name` is the file name of a known base game file, in any case.
pub open spec fn is_iwad_base_name(name: Seq<char>) -> bool {
    is_iwad_file_name(lowercase(name))
}

/// The `i`-th known base game file; `None` from the end of the table on.
pub fn iwads(i: usize) -> (r: Option<Iwad>)
    ensures
        r is Some <==> i < IWADS@.len(),
        r matches Some(iwad) ==> {
            &&& iwad.name == IWADS@[i as int].0
            &&& iwad.mission == IWADS@[i as int].1
            &&& iwad.mode == IWADS@[i as int].2
            &&& iwad.description == IWADS@[i as int].3
        },
{
    if i < IWADS.len() {
        let entry = IWADS[i];
        Some(Iwad { name: entry.0, mission: entry.1, mode: entry.2, description: entry.3 })
    } else {
        None
    }
}

/// Whether `lower` is the file name of a known base game file, letter for
/// letter. The search stops at the first hit.
pub fn is_iwad_lower_name(lower: &str) -> (r: bool)
    ensures
        r == is_iwad_file_name(lower@),
{
    let mut i: usize = 0;
    loop
        invariant
            i <= IWADS@.len(),
            forall|j: int| 0 <= j < i ==> (#[trigger] IWADS@[j]).0@ != lower@,
        decreases IWADS@.len() - i,
    {
        match iwads(i) {
            Some(iwad) => {
                if str_eq(iwad.name, lower) {
                    return true;
                }
            },
            None => {
                return false;
            },
        }
        i += 1;
    }
}

/// Names that may be the file name of a known base game file.
pub trait IwadName {
    /// Whether the name is in the table of known base game files.
    spec fn names_iwad(&self) -> bool;

    /// Whether the name is the file name of a known base game file. Upper and
    /// lower case are not told apart.
    fn is_iwad_name(&self) -> (r: bool)
        ensures
            r == self.names_iwad(),
    ;
}

impl IwadName for String {
    open spec fn names_iwad(&self) -> bool {
        is_iwad_base_name(self@)
    }

    fn is_iwad_name(&self) -> (r: bool) {
        let lower = str_to_lowercase(self.as_str());
        is_iwad_lower_name(lower.as_str())
    }
}

impl State {
    /// The base game file that the command line names with `--iwad`. The
    /// state remembers it. Where the flag is absent or has no value, nothing
    /// is found and the state is as it was: the caller has to fail.
    pub fn find_iwad(&mut self) -> (r: Option<String>)
        ensures
            match r {
                Some(file) => {
                    &&& value_of(views(old(self).args@), "--iwad"@) == Some(file@)
                    &&& final(self).iwad_file@ == file@
                    &&& *final(self) == (State { iwad_file: final(self).iwad_file, ..*old(self) })
                },
                None => value_of(views(old(self).args@), "--iwad"@) is None && *final(self)
                    == *old(self),
            },
    {
        match self.parm_value("--iwad") {
            Some(file) => {
                self.iwad_file = file.clone();
                Some(file)
            },
            None => None,
        }
    }
}

} // verus!
