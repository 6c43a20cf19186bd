//! The command line: questions about its arguments, and the rewriting of a
//! list of loose files into flagged form.

use vstd::prelude::*;
use crate::iwad::{is_iwad_file_name, is_iwad_lower_name};
use crate::state::State;
use crate::text::{
    alphabetic, char_is_alphabetic, chars_eq, ends_with, has_suffix, lowercase, str_to_lowercase,
    to_chars, to_string, views,
};

verus! {

/// Whether `parm` stands at `i` in `args` and nowhere before.
pub open spec fn first_at(args: Seq<Seq<char>>, parm: Seq<char>, i: int) -> bool {
    &&& 0 <= i < args.len()
    &&& args[i] == parm
    &&& forall|j: int| 0 <= j < i ==> args[j] != parm
}

/// Whether `parm` stands nowhere in `args`.
pub open spec fn absent(args: Seq<Seq<char>>, parm: Seq<char>) -> bool {
    forall|j: int| 0 <= j < args.len() ==> args[j] != parm
}

/// Whether `parm` stands first at `p`, with an argument behind it.
pub open spec fn flag_with_value_at(args: Seq<Seq<char>>, parm: Seq<char>, p: int) -> bool {
    first_at(args, parm, p) && p + 1 < args.len()
}

/// The value of the flag `parm`: the argument behind its first occurrence,
/// where there is one.
pub open spec fn value_of(args: Seq<Seq<char>>, parm: Seq<char>) -> Option<Seq<char>> {
    if exists|p: int| flag_with_value_at(args, parm, p) {
        Some(args[(choose|p: int| flag_with_value_at(args, parm, p)) + 1])
    } else {
        None
    }
}

/// The flag that stands first at `p` with an argument behind it has that
/// argument as its value.
pub proof fn lemma_value_at(args: Seq<Seq<char>>, parm: Seq<char>, p: int)
    requires
        flag_with_value_at(args, parm, p),
    ensures
        value_of(args, parm) == Some(args[p + 1]),
{
    let c = choose|c: int| flag_with_value_at(args, parm, c);
    assert(flag_with_value_at(args, parm, c));
    assert(c == p);
}

impl State {
    /// The value of the flag `parm`: the argument behind its first
    /// occurrence, where there is one.
    pub fn parm_value(&self, parm: &str) -> (r: Option<String>)
        ensures
            match r {
                Some(value) => value_of(views(self.args@), parm@) == Some(value@),
                None => value_of(views(self.args@), parm@) is None,
            },
    {
        match self.check_parm_with_args(parm, 1) {
            Some(p) => {
                assert(p + 1 < self.args.len());
                proof {
                    lemma_value_at(views(self.args@), parm@, p as int);
                }
                Some(self.args[p + 1].clone())
            },
            None => {
                assert forall|p: int| !flag_with_value_at(views(self.args@), parm@, p) by {
                    if flag_with_value_at(views(self.args@), parm@, p) {
                        if !absent(views(self.args@), parm@) {
                            let q = choose|q: int|
                                first_at(views(self.args@), parm@, q) && q + 1
                                    >= self.args@.len();
                            assert(q == p);
                        }
                    }
                }
                None
            },
        }
    }

    /// Whether `parm` is among the arguments.
    pub fn parm_exists(&self, parm: &str) -> (r: bool)
        ensures
            r == !absent(views(self.args@), parm@),
    {
        self.check_parm(parm).is_some()
    }

    /// The first position of `parm` among the arguments.
    pub fn check_parm(&self, parm: &str) -> (r: Option<usize>)
        ensures
            match r {
                Some(p) => first_at(views(self.args@), parm@, p as int),
                None => absent(views(self.args@), parm@),
            },
    {
        let wanted = to_chars(parm);
        let mut i: usize = 0;
        while i < self.args.len()
            invariant
                i <= self.args@.len(),
                wanted@ == parm@,
                forall|j: int| 0 <= j < i ==> (#[trigger] views(self.args@)[j]) != parm@,
            decreases self.args@.len() - i,
        {
            let arg = to_chars(self.args[i].as_str());
            if chars_eq(&arg, &wanted) {
                assert(views(self.args@)[i as int] == parm@);
                return Some(i);
            }
            assert(views(self.args@)[i as int] != parm@);
            i += 1;
        }
        None
    }

    /// The first position of `parm` among the arguments, where at least
    /// `n_args` arguments follow it; nothing where `parm` is absent or fewer
    /// follow its first occurrence.
    pub fn check_parm_with_args(&self, parm: &str, n_args: usize) -> (r: Option<usize>)
        ensures
            match r {
                Some(p) => first_at(views(self.args@), parm@, p as int) && p + n_args
                    < self.args@.len(),
                None => absent(views(self.args@), parm@) || exists|p: int|
                    first_at(views(self.args@), parm@, p) && p + n_args >= self.args@.len(),
            },
    {
        match self.check_parm(parm) {
            Some(p) => {
                if n_args >= self.args.len() - p {
                    None
                } else {
                    Some(p)
                }
            },
            None => None,
        }
    }
}

/// What a loose file on the command line is taken to be.
#[derive(Clone, Copy, PartialEq, Eq, Structural, Debug)]
pub enum FileKind {
    Unknown,
    Iwad,
    Pwad,
    Deh,
}

impl FileKind {
    /// The bit that stands for the kind in a set of kinds.
    pub open spec fn bit(self) -> u8 {
        match self {
            FileKind::Unknown => 0x0,
            FileKind::Iwad => 0x2,
            FileKind::Pwad => 0x4,
            FileKind::Deh => 0x8,
        }
    }

    /// The bit that stands for the kind in a set of kinds.
    pub fn to_bit(self) -> (b: u8)
        ensures
            b == self.bit(),
    {
        match self {
            FileKind::Unknown => 0x0,
            FileKind::Iwad => 0x2,
            FileKind::Pwad => 0x4,
            FileKind::Deh => 0x8,
        }
    }
}

/// The kinds seen in one pass over the arguments, as a set of bits. It only
/// grows.
#[derive(Clone, Copy, PartialEq, Eq, Structural, Debug)]
pub struct FileKinds {
    pub bits: u8,
}

impl FileKinds {
    /// Whether the bit of `kind` is set.
    pub open spec fn has(self, kind: FileKind) -> bool {
        self.bits & kind.bit() == kind.bit()
    }

    /// The set without any kind.
    pub fn empty() -> (r: Self)
        ensures
            r.bits == 0,
            !r.has(FileKind::Iwad),
            !r.has(FileKind::Pwad),
            !r.has(FileKind::Deh),
    {
        assert(0u8 & 2 != 2 && 0u8 & 4 != 4 && 0u8 & 8 != 8) by (bit_vector);
        FileKinds { bits: 0 }
    }

    /// Whether `kind` is in the set.
    pub fn contains(self, kind: FileKind) -> (r: bool)
        ensures
            r == self.has(kind),
    {
        let bit = kind.to_bit();
        self.bits & bit == bit
    }

    /// The set with `kind` added. Every kind that was in it stays, and of the
    /// kinds of files only `kind` is new.
    pub fn with(self, kind: FileKind) -> (r: Self)
        ensures
            r.bits == self.bits | kind.bit(),
            forall|k: FileKind| k != FileKind::Unknown ==> (#[trigger] r.has(k) == (self.has(k) || k == kind)),
    {
        let bit = kind.to_bit();
        let r = FileKinds { bits: self.bits | bit };
        proof {
            let b = self.bits;
            assert forall|k: FileKind| k != FileKind::Unknown implies (#[trigger] r.has(k) == (
            self.has(k) || k == kind)) by {
                let y = k.bit();
                assert((bit == 0 || bit == 2 || bit == 4 || bit == 8) && (y == 2 || y == 4 || y
                    == 8) ==> (((b | bit) & y == y) == ((b & y == y) || bit == y)))
                    by (bit_vector);
            }
        }
        r
    }
}

/// Whether `c` parts the directories of a path.
pub open spec fn is_separator(c: char) -> bool {
    c == '\\' || c == '/'
}

/// Where the last component of the first `n` characters of `arg` starts:
/// behind their last separator.
pub open spec fn base_start(arg: Seq<char>, n: int) -> int
    decreases n,
{
    if n <= 0 {
        0
    } else if is_separator(arg[n - 1]) {
        n
    } else {
        base_start(arg, n - 1)
    }
}

/// The last component of the path `arg`: what follows its last separator.
pub open spec fn base_name(arg: Seq<char>) -> Seq<char> {
    arg.subrange(base_start(arg, arg.len() as int), arg.len() as int)
}

/// Whether `arg` looks like a loose file, where `letter` says whether its
/// first character is a letter: at least three characters, no flag and no
/// response file, and a path that starts at a drive (a letter, `:` and `\`)
/// or on a network share (`\\`).
pub open spec fn loose_file_given(arg: Seq<char>, letter: bool) -> bool {
    &&& arg.len() >= 3
    &&& arg[0] != '-'
    &&& arg[0] != '@'
    &&& ((letter && arg[1] == ':' && arg[2] == '\\') || (arg[0] == '\\' && arg[1] == '\\'))
}

/// Whether `arg` looks like a loose file. What a letter is, `alphabetic`
/// says.
pub open spec fn is_loose_file(arg: Seq<char>) -> bool {
    loose_file_given(arg, alphabetic(arg[0]))
}

/// Whether every argument behind the program's name looks like a loose file.
pub open spec fn all_loose(args: Seq<Seq<char>>) -> bool {
    forall|i: int| 1 <= i < args.len() ==> is_loose_file(#[trigger] args[i])
}

/// The kind of a file whose base name in lower case is `lower`. A known base
/// game file is one only while none has been claimed.
pub open spec fn kind_of_lower(lower: Seq<char>, iwad_found: bool) -> FileKind {
    if !iwad_found && is_iwad_file_name(lower) {
        FileKind::Iwad
    } else if has_suffix(lower, ".wad"@) || has_suffix(lower, ".lmp"@) {
        FileKind::Pwad
    } else if has_suffix(lower, ".deh"@) || has_suffix(lower, ".hhe"@) || has_suffix(
        lower,
        ".seh"@,
    ) {
        FileKind::Deh
    } else {
        FileKind::Unknown
    }
}

/// The kind of the file `arg`, by its base name in lower case.
pub open spec fn file_kind(arg: Seq<char>, iwad_found: bool) -> FileKind {
    kind_of_lower(lowercase(base_name(arg)), iwad_found)
}

/// Whether `arg` names a known base game file.
pub open spec fn names_base_game(arg: Seq<char>) -> bool {
    is_iwad_file_name(lowercase(base_name(arg)))
}

/// Whether a base game file has been claimed before the argument at `i` is
/// looked at: either it was so from the start, or an argument in front of
/// `i` names one.
pub open spec fn claimed_before(args: Seq<Seq<char>>, iwad_found: bool, i: int) -> bool {
    iwad_found || exists|j: int| 1 <= j < i && j < args.len() && names_base_game(#[trigger] args[j])
}

/// The kind that the argument at `i` gets in a pass from the front.
pub open spec fn kind_at(args: Seq<Seq<char>>, iwad_found: bool, i: int) -> FileKind {
    file_kind(args[i], claimed_before(args, iwad_found, i))
}

/// The arguments of `kind` among `args[1..n]`, in the order of `args`.
pub open spec fn group(args: Seq<Seq<char>>, iwad_found: bool, kind: FileKind, n: int) -> Seq<
    Seq<char>,
>
    decreases n,
{
    if n <= 1 {
        Seq::empty()
    } else if kind_at(args, iwad_found, n - 1) == kind {
        group(args, iwad_found, kind, n - 1).push(args[n - 1])
    } else {
        group(args, iwad_found, kind, n - 1)
    }
}

/// `files` behind their flag; nothing where there is no file.
pub open spec fn flagged(flag: Seq<char>, files: Seq<Seq<char>>) -> Seq<Seq<char>> {
    if files.len() == 0 {
        Seq::empty()
    } else {
        seq![flag] + files
    }
}

/// The flagged form of a list of loose files: the program's name, the files
/// of no known kind, then the base game file behind `-iwad`, the files to
/// merge behind `-merge` and the patches behind `-deh`. Within each group the
/// files keep the order of `args`, and a group without files gets no flag.
pub open spec fn reordered(args: Seq<Seq<char>>, iwad_found: bool) -> Seq<Seq<char>> {
    let n = args.len() as int;
    seq![args[0]] + group(args, iwad_found, FileKind::Unknown, n) + flagged(
        "-iwad"@,
        group(args, iwad_found, FileKind::Iwad, n),
    ) + flagged("-merge"@, group(args, iwad_found, FileKind::Pwad, n)) + flagged(
        "-deh"@,
        group(args, iwad_found, FileKind::Deh, n),
    )
}

/// Whether the argument `arg` looks like a loose file, where `letter` says
/// whether its first character is a letter.
pub fn is_loose_given(arg: &str, letter: bool) -> (r: bool)
    ensures
        r == loose_file_given(arg@, letter),
{
    let c = to_chars(arg);
    if c.len() < 3 || c[0] == '-' || c[0] == '@' {
        return false;
    }
    (letter && c[1] == ':' && c[2] == '\\') || (c[0] == '\\' && c[1] == '\\')
}

/// Whether the argument `arg` looks like a loose file.
pub fn is_loose(arg: &str) -> (r: bool)
    ensures
        r == is_loose_file(arg@),
{
    if arg.unicode_len() == 0 {
        return false;
    }
    let letter = char_is_alphabetic(arg.get_char(0));
    is_loose_given(arg, letter)
}

/// The last component of the path `arg`.
pub fn base_name_of(arg: &str) -> (base: String)
    ensures
        base@ == base_name(arg@),
{
    let c = to_chars(arg);
    let mut i: usize = c.len();
    while i > 0 && c[i - 1] != '\\' && c[i - 1] != '/'
        invariant
            i <= c.len(),
            base_start(c@, c.len() as int) == base_start(c@, i as int),
        decreases i,
    {
        i -= 1;
    }
    to_string(&c, i, c.len())
}

/// The kind of a file from its base name in lower case.
pub fn classify_lower_name(lower: &str, iwad_found: bool) -> (kind: FileKind)
    ensures
        kind == kind_of_lower(lower@, iwad_found),
{
    let c = to_chars(lower);
    if !iwad_found && is_iwad_lower_name(lower) {
        FileKind::Iwad
    } else if ends_with(&c, ".wad") || ends_with(&c, ".lmp") {
        FileKind::Pwad
    } else if ends_with(&c, ".deh") || ends_with(&c, ".hhe") || ends_with(&c, ".seh") {
        FileKind::Deh
    } else {
        FileKind::Unknown
    }
}

/// One loose file of the command line: its text, its kind, and the place it
/// had, by which files of one kind keep their order.
pub struct Argument {
    pub string: String,
    pub kind: FileKind,
    pub stable: usize,
}

/// The texts of the first `n` of `arguments` that are of `kind`, in order.
pub open spec fn picked(arguments: Seq<Argument>, kind: FileKind, n: int) -> Seq<Seq<char>>
    decreases n,
{
    if n <= 0 {
        Seq::empty()
    } else if arguments[n - 1].kind == kind {
        picked(arguments, kind, n - 1).push(arguments[n - 1].string@)
    } else {
        picked(arguments, kind, n - 1)
    }
}

/// Whether `arguments` holds `args[1..]` with the kinds of a pass from the
/// front, each at its place.
pub open spec fn classified(arguments: Seq<Argument>, args: Seq<Seq<char>>, iwad_found: bool) -> bool {
    &&& arguments.len() + 1 == args.len()
    &&& forall|j: int|
        0 <= j < arguments.len() ==> {
            &&& (#[trigger] arguments[j]).string@ == args[j + 1]
            &&& arguments[j].kind == kind_at(args, iwad_found, j + 1)
            &&& arguments[j].stable == j + 1
        }
}

/// Picking a kind from the classified arguments gives the group of that kind.
proof fn lemma_picked_is_group(
    arguments: Seq<Argument>,
    args: Seq<Seq<char>>,
    iwad_found: bool,
    kind: FileKind,
    n: int,
)
    requires
        classified(arguments, args, iwad_found),
        0 <= n <= arguments.len(),
    ensures
        picked(arguments, kind, n) == group(args, iwad_found, kind, n + 1),
    decreases n,
{
    if n > 0 {
        lemma_picked_is_group(arguments, args, iwad_found, kind, n - 1);
        assert(arguments[n - 1].string@ == args[n - 1 + 1]);
    }
}

/// Appends to `out` the texts of the `arguments` of `kind`, in order.
fn append_group(out: &mut Vec<String>, arguments: &Vec<Argument>, kind: FileKind)
    ensures
        views(final(out)@) == views(old(out)@) + picked(arguments@, kind, arguments@.len() as int),
{
    let mut j: usize = 0;
    assert(views(out@) =~= views(old(out)@) + picked(arguments@, kind, 0));
    while j < arguments.len()
        invariant
            j <= arguments@.len(),
            views(out@) == views(old(out)@) + picked(arguments@, kind, j as int),
        decreases arguments@.len() - j,
    {
        if arguments[j].kind == kind {
            let ghost before = out@;
            out.push(arguments[j].string.clone());
            assert(views(out@) =~= views(before).push(arguments@[j as int].string@));
            assert(views(out@) =~= views(old(out)@) + picked(arguments@, kind, j + 1));
        }
        j += 1;
    }
}

impl State {
    /// The kind of the loose file `arg`. The first file that names a known
    /// base game file claims that place: the state remembers it, and a later
    /// one is a file to merge.
    pub fn guess_file_kind(&mut self, arg: &str) -> (kind: FileKind)
        ensures
            kind == file_kind(arg@, old(self).iwad_found),
            *final(self) == old(self).with_args(
                old(self).args,
                old(self).iwad_found || kind == FileKind::Iwad,
            ),
    {
        let base = base_name_of(arg);
        let lower = str_to_lowercase(base.as_str());
        let kind = classify_lower_name(lower.as_str(), self.iwad_found);
        if kind == FileKind::Iwad {
            self.iwad_found = true;
        }
        kind
    }
}

/// A group has a file exactly when some argument in reach is of its kind.
proof fn lemma_group_grows(args: Seq<Seq<char>>, iwad_found: bool, kind: FileKind, n: int)
    requires
        2 <= n <= args.len(),
    ensures
        group(args, iwad_found, kind, n).len() > 0 <==> (group(args, iwad_found, kind, n - 1).len()
            > 0 || kind_at(args, iwad_found, n - 1) == kind),
{
}

/// Whether `kinds` holds the kinds of files that `args[1..n]` has.
pub open spec fn kinds_seen(kinds: FileKinds, args: Seq<Seq<char>>, iwad_found: bool, n: int) -> bool {
    forall|k: FileKind|
        k != FileKind::Unknown ==> (#[trigger] kinds.has(k) == (group(args, iwad_found, k, n).len()
            > 0))
}

/// The program's name, and the classified files in flagged form.
fn flagged_form(program: String, arguments: &Vec<Argument>, kinds: FileKinds) -> (out: Vec<String>)
    ensures
        views(out@) == seq![program@] + picked(
            arguments@,
            FileKind::Unknown,
            arguments@.len() as int,
        ) + (if kinds.has(FileKind::Iwad) {
            seq!["-iwad"@] + picked(arguments@, FileKind::Iwad, arguments@.len() as int)
        } else {
            Seq::empty()
        }) + (if kinds.has(FileKind::Pwad) {
            seq!["-merge"@] + picked(arguments@, FileKind::Pwad, arguments@.len() as int)
        } else {
            Seq::empty()
        }) + (if kinds.has(FileKind::Deh) {
            seq!["-deh"@] + picked(arguments@, FileKind::Deh, arguments@.len() as int)
        } else {
            Seq::empty()
        }),
{
    let ghost n = arguments@.len() as int;
    let ghost head = seq![program@] + picked(arguments@, FileKind::Unknown, n);
    let mut out: Vec<String> = Vec::new();
    out.push(program);
    assert(views(out@) =~= seq![program@]);
    append_group(&mut out, arguments, FileKind::Unknown);
    assert(views(out@) == head);
    let ghost iwad = if kinds.has(FileKind::Iwad) {
        seq!["-iwad"@] + picked(arguments@, FileKind::Iwad, n)
    } else {
        Seq::empty()
    };
    if kinds.contains(FileKind::Iwad) {
        let ghost before = out@;
        out.push("-iwad".to_owned());
        assert(views(out@) =~= views(before) + seq!["-iwad"@]);
        append_group(&mut out, arguments, FileKind::Iwad);
    }
    assert(views(out@) =~= head + iwad);
    let ghost pwad = if kinds.has(FileKind::Pwad) {
        seq!["-merge"@] + picked(arguments@, FileKind::Pwad, n)
    } else {
        Seq::empty()
    };
    if kinds.contains(FileKind::Pwad) {
        let ghost before = out@;
        out.push("-merge".to_owned());
        assert(views(out@) =~= views(before) + seq!["-merge"@]);
        append_group(&mut out, arguments, FileKind::Pwad);
    }
    assert(views(out@) =~= head + iwad + pwad);
    if kinds.contains(FileKind::Deh) {
        let ghost before = out@;
        out.push("-deh".to_owned());
        assert(views(out@) =~= views(before) + seq!["-deh"@]);
        append_group(&mut out, arguments, FileKind::Deh);
    }
    out
}

impl State {
    /// Whether every argument behind the program's name looks like a loose
    /// file.
    pub fn only_loose_files(&self) -> (r: bool)
        ensures
            r == all_loose(views(self.args@)),
    {
        let ghost args = views(self.args@);
        let mut i: usize = 1;
        while i < self.args.len()
            invariant
                1 <= i,
                args == views(self.args@),
                forall|j: int| 1 <= j < i && j < args.len() ==> is_loose_file(#[trigger] args[j]),
            decreases self.args@.len() - i,
        {
            if !is_loose(self.args[i].as_str()) {
                assert(!is_loose_file(args[i as int]));
                return false;
            }
            i += 1;
        }
        true
    }

    /// Gives each argument behind the program's name its kind, from the
    /// front, and collects the kinds that were seen. The state remembers
    /// whether a base game file was claimed.
    fn classify_files(&mut self) -> (r: (Vec<Argument>, FileKinds))
        requires
            old(self).args@.len() >= 1,
        ensures
            classified(r.0@, views(old(self).args@), old(self).iwad_found),
            kinds_seen(
                r.1,
                views(old(self).args@),
                old(self).iwad_found,
                old(self).args@.len() as int,
            ),
            *final(self) == old(self).with_args(
                old(self).args,
                claimed_before(
                    views(old(self).args@),
                    old(self).iwad_found,
                    old(self).args@.len() as int,
                ),
            ),
    {
        let n = self.args.len();
        let ghost args = views(self.args@);
        let ghost found = self.iwad_found;
        let mut arguments: Vec<Argument> = Vec::new();
        let mut kinds = FileKinds::empty();
        let mut i: usize = 1;
        while i < n
            invariant
                1 <= i <= n,
                n == self.args@.len(),
                args == views(old(self).args@),
                found == old(self).iwad_found,
                *self == old(self).with_args(old(self).args, self.iwad_found),
                self.iwad_found == claimed_before(args, found, i as int),
                arguments@.len() == i - 1,
                forall|j: int|
                    0 <= j < i - 1 ==> {
                        &&& (#[trigger] arguments@[j]).string@ == args[j + 1]
                        &&& arguments@[j].kind == kind_at(args, found, j + 1)
                        &&& arguments@[j].stable == j + 1
                    },
                kinds_seen(kinds, args, found, i as int),
            decreases n - i,
        {
            let arg = self.args[i].clone();
            let kind = self.guess_file_kind(arg.as_str());
            assert(arg@ == args[i as int]);
            assert(kind == kind_at(args, found, i as int));
            proof {
                if names_base_game(args[i as int]) {
                    assert(claimed_before(args, found, i + 1));
                }
                assert(self.iwad_found == claimed_before(args, found, i + 1));
            }
            let ghost seen = kinds;
            kinds = kinds.with(kind);
            arguments.push(Argument { string: arg, kind, stable: i });
            proof {
                assert forall|k: FileKind| k != FileKind::Unknown implies (#[trigger] kinds.has(k)
                    == (group(args, found, k, i + 1).len() > 0)) by {
                    assert(seen.has(k) == (group(args, found, k, i as int).len() > 0));
                    lemma_group_grows(args, found, k, i + 1);
                }
            }
            i += 1;
        }
        (arguments, kinds)
    }

    /// Rewrites a command line that holds nothing but loose files into
    /// flagged form.
    ///
    /// Nothing happens where fewer than two arguments stand, or where any
    /// argument behind the program's name does not look like a loose file: one
    /// flag anywhere leaves the whole state as it was. Otherwise the
    /// arguments become `reordered`, and the state remembers whether a base
    /// game file was claimed.
    pub fn add_loose_files(&mut self)
        ensures
            old(self).args@.len() >= 2 && all_loose(views(old(self).args@)) ==> {
                &&& views(final(self).args@) == reordered(
                    views(old(self).args@),
                    old(self).iwad_found,
                )
                &&& final(self).iwad_found == claimed_before(
                    views(old(self).args@),
                    old(self).iwad_found,
                    old(self).args@.len() as int,
                )
                &&& *final(self) == old(self).with_args(final(self).args, final(self).iwad_found)
            },
            !(old(self).args@.len() >= 2 && all_loose(views(old(self).args@))) ==> *final(self)
                == *old(self),
    {
        if self.args.len() < 2 || !self.only_loose_files() {
            return ;
        }
        let ghost args = views(self.args@);
        let ghost found = self.iwad_found;
        let ghost n = self.args@.len() as int;
        let program = self.args[0].clone();
        let (arguments, kinds) = self.classify_files();
        proof {
            lemma_picked_is_group(arguments@, args, found, FileKind::Unknown, n - 1);
            lemma_picked_is_group(arguments@, args, found, FileKind::Iwad, n - 1);
            lemma_picked_is_group(arguments@, args, found, FileKind::Pwad, n - 1);
            lemma_picked_is_group(arguments@, args, found, FileKind::Deh, n - 1);
            assert(kinds.has(FileKind::Iwad) == (group(args, found, FileKind::Iwad, n).len() > 0));
            assert(kinds.has(FileKind::Pwad) == (group(args, found, FileKind::Pwad, n).len() > 0));
            assert(kinds.has(FileKind::Deh) == (group(args, found, FileKind::Deh, n).len() > 0));
        }
        let new_args = flagged_form(program, &arguments, kinds);
        assert(views(new_args@) =~= reordered(args, found));
        self.args = new_args;
    }
}

/// The places among `args[1..n]` of the arguments of `kind`, from the front.
pub open spec fn places(args: Seq<Seq<char>>, iwad_found: bool, kind: FileKind, n: int) -> Seq<int>
    decreases n,
{
    if n <= 1 {
        Seq::empty()
    } else if kind_at(args, iwad_found, n - 1) == kind {
        places(args, iwad_found, kind, n - 1).push(n - 1)
    } else {
        places(args, iwad_found, kind, n - 1)
    }
}

/// A group holds the arguments of its kind, each once, in the order in
/// which the command line gave them: the files of the group stand at rising
/// places of the input, and every place of that kind has its file in the
/// group.
pub proof fn lemma_group_keeps_input_order(
    args: Seq<Seq<char>>,
    iwad_found: bool,
    kind: FileKind,
    n: int,
)
    requires
        n <= args.len(),
    ensures
        places(args, iwad_found, kind, n).len() == group(args, iwad_found, kind, n).len(),
        forall|k: int|
            0 <= k < places(args, iwad_found, kind, n).len() ==> {
                let at = #[trigger] places(args, iwad_found, kind, n)[k];
                &&& 1 <= at < n
                &&& kind_at(args, iwad_found, at) == kind
                &&& group(args, iwad_found, kind, n)[k] == args[at]
            },
        forall|a: int, b: int|
            0 <= a < b < places(args, iwad_found, kind, n).len() ==> places(
                args,
                iwad_found,
                kind,
                n,
            )[a] < places(args, iwad_found, kind, n)[b],
        forall|i: int|
            1 <= i < n && kind_at(args, iwad_found, i) == kind ==> places(
                args,
                iwad_found,
                kind,
                n,
            ).contains(i),
    decreases n,
{
    if n > 1 {
        lemma_group_keeps_input_order(args, iwad_found, kind, n - 1);
        let before = places(args, iwad_found, kind, n - 1);
        let now = places(args, iwad_found, kind, n);
        if kind_at(args, iwad_found, n - 1) == kind {
            assert(now[before.len() as int] == n - 1);
            assert forall|i: int| 1 <= i < n && kind_at(args, iwad_found, i) == kind implies now.contains(
                i,
            ) by {
                if i < n - 1 {
                    let k = choose|k: int| 0 <= k < before.len() && before[k] == i;
                    assert(now[k] == i);
                } else {
                    assert(now[before.len() as int] == i);
                }
            }
        }
    }
}

/// Every file of the command line is in exactly one group: the groups
/// together hold as many files as the command line gave.
pub proof fn lemma_groups_hold_every_file(args: Seq<Seq<char>>, iwad_found: bool, n: int)
    requires
        1 <= n <= args.len(),
    ensures
        group(args, iwad_found, FileKind::Unknown, n).len() + group(
            args,
            iwad_found,
            FileKind::Iwad,
            n,
        ).len() + group(args, iwad_found, FileKind::Pwad, n).len() + group(
            args,
            iwad_found,
            FileKind::Deh,
            n,
        ).len() == n - 1,
    decreases n,
{
    if n > 1 {
        lemma_groups_hold_every_file(args, iwad_found, n - 1);
    }
}

/// At most one file is taken for the base game file: the first that names
/// one, and only while none was claimed before.
pub proof fn lemma_one_base_game(args: Seq<Seq<char>>, iwad_found: bool, n: int)
    requires
        n <= args.len(),
    ensures
        group(args, iwad_found, FileKind::Iwad, n).len() <= 1,
        iwad_found ==> group(args, iwad_found, FileKind::Iwad, n).len() == 0,
        group(args, iwad_found, FileKind::Iwad, n).len() == 1 ==> claimed_before(
            args,
            iwad_found,
            n,
        ),
    decreases n,
{
    if n > 1 {
        lemma_one_base_game(args, iwad_found, n - 1);
        if kind_at(args, iwad_found, n - 1) == FileKind::Iwad {
            assert(!claimed_before(args, iwad_found, n - 1));
            assert(names_base_game(args[n - 1]));
        }
        if claimed_before(args, iwad_found, n - 1) {
            assert(claimed_before(args, iwad_found, n));
        }
    }
}

/// The flag in front of the files of `kind`.
pub open spec fn flag_of(kind: FileKind) -> Seq<char> {
    match kind {
        FileKind::Iwad => "-iwad"@,
        FileKind::Pwad => "-merge"@,
        FileKind::Deh => "-deh"@,
        FileKind::Unknown => Seq::empty(),
    }
}

/// The flag of `kind`, where `args` has a file of that kind, and nothing
/// otherwise.
pub open spec fn flag_seen(args: Seq<Seq<char>>, iwad_found: bool, kind: FileKind) -> Seq<
    Seq<char>,
> {
    if group(args, iwad_found, kind, args.len() as int).len() > 0 {
        seq![flag_of(kind)]
    } else {
        Seq::empty()
    }
}

/// The flags that the rewriting adds to `args`: one for each kind of which
/// `args` has a file.
pub open spec fn flags_seen(args: Seq<Seq<char>>, iwad_found: bool) -> Seq<Seq<char>> {
    flag_seen(args, iwad_found, FileKind::Iwad) + flag_seen(args, iwad_found, FileKind::Pwad)
        + flag_seen(args, iwad_found, FileKind::Deh)
}

/// No argument is among no arguments.
proof fn lemma_nothing_in_nothing()
    ensures
        Seq::<Seq<char>>::empty().to_multiset() == vstd::multiset::Multiset::<Seq<char>>::empty(),
{
    broadcast use vstd::multiset::group_multiset_axioms;

    let empty = Seq::<Seq<char>>::empty();
    empty.to_multiset_ensures();
    assert forall|a: Seq<char>| empty.to_multiset().count(a) == 0 by {
        assert(!empty.contains(a));
    }
    assert(empty.to_multiset() =~= vstd::multiset::Multiset::<Seq<char>>::empty());
}

/// The four groups together hold the files `args[1..n]`, each as often as
/// the command line gave it.
pub proof fn lemma_groups_are_the_files(args: Seq<Seq<char>>, iwad_found: bool, n: int)
    requires
        1 <= n <= args.len(),
    ensures
        group(args, iwad_found, FileKind::Unknown, n).to_multiset().add(
            group(args, iwad_found, FileKind::Iwad, n).to_multiset(),
        ).add(group(args, iwad_found, FileKind::Pwad, n).to_multiset()).add(
            group(args, iwad_found, FileKind::Deh, n).to_multiset(),
        ) == args.subrange(1, n).to_multiset(),
    decreases n,
{
    broadcast use vstd::multiset::group_multiset_axioms;
    broadcast use vstd::seq_lib::to_multiset_build;

    let u = group(args, iwad_found, FileKind::Unknown, n);
    let i = group(args, iwad_found, FileKind::Iwad, n);
    let p = group(args, iwad_found, FileKind::Pwad, n);
    let d = group(args, iwad_found, FileKind::Deh, n);
    let sum = u.to_multiset().add(i.to_multiset()).add(p.to_multiset()).add(d.to_multiset());
    if n == 1 {
        let empty = Seq::<Seq<char>>::empty();
        lemma_nothing_in_nothing();
        assert(args.subrange(1, 1) =~= empty);
        assert(u =~= empty && i =~= empty && p =~= empty && d =~= empty);
        assert(sum =~= args.subrange(1, n).to_multiset());
    } else {
        lemma_groups_are_the_files(args, iwad_found, n - 1);
        let x = args[n - 1];
        assert(args.subrange(1, n) =~= args.subrange(1, n - 1).push(x));
        assert(args.subrange(1, n).to_multiset() =~= args.subrange(1, n - 1).to_multiset().insert(
            x,
        ));
        assert(sum =~= args.subrange(1, n - 1).to_multiset().insert(x));
    }
}

/// What stands in one sequence after another is what stands in either.
proof fn lemma_joined(a: Seq<Seq<char>>, b: Seq<Seq<char>>)
    ensures
        (a + b).to_multiset() == a.to_multiset().add(b.to_multiset()),
{
    vstd::seq_lib::lemma_multiset_commutative(a, b);
}

/// Files and flags in any order are the files and the flags.
proof fn lemma_files_and_flags(
    u: Seq<Seq<char>>,
    i: Seq<Seq<char>>,
    p: Seq<Seq<char>>,
    d: Seq<Seq<char>>,
    si: Seq<Seq<char>>,
    sp: Seq<Seq<char>>,
    sd: Seq<Seq<char>>,
)
    ensures
        (u + (si + i) + (sp + p) + (sd + d)).to_multiset() == u.to_multiset().add(
            i.to_multiset(),
        ).add(p.to_multiset()).add(d.to_multiset()).add((si + sp + sd).to_multiset()),
{
    broadcast use vstd::multiset::group_multiset_axioms;

    lemma_joined(si, i);
    lemma_joined(sp, p);
    lemma_joined(sd, d);
    lemma_joined(u, si + i);
    lemma_joined(u + (si + i), sp + p);
    lemma_joined(u + (si + i) + (sp + p), sd + d);
    lemma_joined(si, sp);
    lemma_joined(si + sp, sd);
    assert((u + (si + i) + (sp + p) + (sd + d)).to_multiset() =~= u.to_multiset().add(
        i.to_multiset(),
    ).add(p.to_multiset()).add(d.to_multiset()).add((si + sp + sd).to_multiset()));
}

/// The flagged form behind the program's name: the files of no known kind,
/// then each group behind the flag that was seen for it.
proof fn lemma_reordered_rest(args: Seq<Seq<char>>, iwad_found: bool)
    requires
        args.len() >= 1,
    ensures
        reordered(args, iwad_found)[0] == args[0],
        reordered(args, iwad_found).skip(1) == group(
            args,
            iwad_found,
            FileKind::Unknown,
            args.len() as int,
        ) + (flag_seen(args, iwad_found, FileKind::Iwad) + group(
            args,
            iwad_found,
            FileKind::Iwad,
            args.len() as int,
        )) + (flag_seen(args, iwad_found, FileKind::Pwad) + group(
            args,
            iwad_found,
            FileKind::Pwad,
            args.len() as int,
        )) + (flag_seen(args, iwad_found, FileKind::Deh) + group(
            args,
            iwad_found,
            FileKind::Deh,
            args.len() as int,
        )),
{
    let n = args.len() as int;
    let i = group(args, iwad_found, FileKind::Iwad, n);
    let p = group(args, iwad_found, FileKind::Pwad, n);
    let d = group(args, iwad_found, FileKind::Deh, n);
    assert(flagged("-iwad"@, i) =~= flag_seen(args, iwad_found, FileKind::Iwad) + i);
    assert(flagged("-merge"@, p) =~= flag_seen(args, iwad_found, FileKind::Pwad) + p);
    assert(flagged("-deh"@, d) =~= flag_seen(args, iwad_found, FileKind::Deh) + d);
    assert(reordered(args, iwad_found).skip(1) =~= group(args, iwad_found, FileKind::Unknown, n)
        + flagged("-iwad"@, i) + flagged("-merge"@, p) + flagged("-deh"@, d));
}

/// The shape of the flagged form. The program's name stays in front. Behind
/// it stand the files of the command line, each as often as the command
/// line gave it, and the flags of the kinds that were seen, each once:
/// taking the flags away leaves the files, in another order at most.
pub proof fn lemma_reordered_is_files_and_flags(args: Seq<Seq<char>>, iwad_found: bool)
    requires
        args.len() >= 1,
    ensures
        reordered(args, iwad_found)[0] == args[0],
        reordered(args, iwad_found).len() == args.len() + flags_seen(args, iwad_found).len(),
        reordered(args, iwad_found).skip(1).to_multiset() == args.skip(1).to_multiset().add(
            flags_seen(args, iwad_found).to_multiset(),
        ),
{
    let n = args.len() as int;
    let u = group(args, iwad_found, FileKind::Unknown, n);
    let i = group(args, iwad_found, FileKind::Iwad, n);
    let p = group(args, iwad_found, FileKind::Pwad, n);
    let d = group(args, iwad_found, FileKind::Deh, n);
    let si = flag_seen(args, iwad_found, FileKind::Iwad);
    let sp = flag_seen(args, iwad_found, FileKind::Pwad);
    let sd = flag_seen(args, iwad_found, FileKind::Deh);
    lemma_reordered_rest(args, iwad_found);
    lemma_groups_hold_every_file(args, iwad_found, n);
    lemma_groups_are_the_files(args, iwad_found, n);
    lemma_files_and_flags(u, i, p, d, si, sp, sd);
    assert(args.skip(1) =~= args.subrange(1, n));
    assert(reordered(args, iwad_found).skip(1).len() == u.len() + i.len() + p.len() + d.len()
        + si.len() + sp.len() + sd.len());
}

/// In the flagged form of a list of loose files each flag stands exactly
/// once where a file of its kind was seen, and not at all otherwise.
pub proof fn lemma_each_flag_once(args: Seq<Seq<char>>, iwad_found: bool, kind: FileKind)
    requires
        args.len() >= 1,
        all_loose(args),
        kind != FileKind::Unknown,
    ensures
        reordered(args, iwad_found).skip(1).to_multiset().count(flag_of(kind)) == flag_seen(
            args,
            iwad_found,
            kind,
        ).len(),
{
    broadcast use vstd::multiset::group_multiset_axioms;
    broadcast use vstd::seq_lib::to_multiset_build;

    lemma_reordered_is_files_and_flags(args, iwad_found);
    reveal_strlit("-iwad");
    reveal_strlit("-merge");
    reveal_strlit("-deh");
    let flag = flag_of(kind);
    assert(flag[0] == '-');
    let files = args.skip(1);
    assert(!files.contains(flag)) by {
        if files.contains(flag) {
            let j = choose|j: int| 0 <= j < files.len() && files[j] == flag;
            assert(files[j] == args[j + 1]);
            assert(is_loose_file(args[j + 1]));
        }
    }
    files.to_multiset_ensures();
    assert(files.to_multiset().count(flag) == 0);
    let si = flag_seen(args, iwad_found, FileKind::Iwad);
    let sp = flag_seen(args, iwad_found, FileKind::Pwad);
    let sd = flag_seen(args, iwad_found, FileKind::Deh);
    vstd::seq_lib::lemma_multiset_commutative(si, sp);
    vstd::seq_lib::lemma_multiset_commutative(si + sp, sd);
    let empty = Seq::<Seq<char>>::empty();
    lemma_nothing_in_nothing();
    assert(seq!["-iwad"@] =~= empty.push("-iwad"@));
    assert(seq!["-merge"@] =~= empty.push("-merge"@));
    assert(seq!["-deh"@] =~= empty.push("-deh"@));
    assert("-iwad"@.len() == 5 && "-merge"@.len() == 6 && "-deh"@.len() == 4);
    assert(si.to_multiset().count(flag) == (if kind == FileKind::Iwad {
        si.len()
    } else {
        0
    }));
    assert(sp.to_multiset().count(flag) == (if kind == FileKind::Pwad {
        sp.len()
    } else {
        0
    }));
    assert(sd.to_multiset().count(flag) == (if kind == FileKind::Deh {
        sd.len()
    } else {
        0
    }));
}

/// One flag or response file anywhere behind the program's name, and the
/// arguments are no list of loose files: the rewriting leaves them alone.
pub proof fn lemma_flag_stops_rewriting(args: Seq<Seq<char>>, i: int)
    requires
        1 <= i < args.len(),
        args[i].len() > 0,
        args[i][0] == '-' || args[i][0] == '@',
    ensures
        !all_loose(args),
{
    assert(!is_loose_file(args[i]));
}

} // verus!
