//! What the engine reads from the command line when it starts: the mode it
//! runs in, the switches of the game, and the speed of the player.

use vstd::prelude::*;
use crate::argv::{absent, first_at, value_of};
use crate::config::or_zero;
use crate::number::{parse_decimal, parse_int};
use crate::options::{input_fits, input_outcome, registry_of, BindError};
use crate::state::State;
use crate::text::{to_chars, views};
use crate::types::{Fixed, MultiplayerMode};

verus! {

/// `v`, or the nearer of `min` and `max` where `v` is not between them.
pub open spec fn clamped(v: int, min: int, max: int) -> int {
    if v < min {
        min
    } else if v > max {
        max
    } else {
        v
    }
}

/// Calls `num::clamp`. Trusted: for `min <= max` it returns `min` where the
/// input is below it, `max` where the input is above it, and the input
/// otherwise. The outside function may panic where `min > max`.
#[verifier::external_body]
fn clamp(input: i32, min: i32, max: i32) -> (r: i32)
    requires
        min <= max,
    ensures
        r == clamped(input as int, min as int, max as int),
{
    num::clamp(input, min, max)
}

/// What the engine is started for.
#[derive(Debug, PartialEq, Eq)]
pub enum StartupMode {
    /// A server without a player of its own.
    Dedicated,
    /// A search for servers through the master server.
    Search,
    /// A query of the server at the address.
    Query(String),
    /// A search for servers on the local network.
    LocalSearch,
    /// A game.
    Game,
}

/// The speed in percent that the flag `--turbo` asks for, if it is given:
/// the number behind the flag, held between 10 and 400, zero counting for
/// text that is no number; 200 where nothing stands behind the flag.
pub open spec fn turbo_scale(args: Seq<Seq<char>>) -> Option<int> {
    if exists|p: int| first_at(args, "--turbo"@, p) {
        let p = choose|p: int| first_at(args, "--turbo"@, p);
        if p + 1 < args.len() {
            Some(clamped(or_zero(parse_int(args[p + 1])), 10, 400))
        } else {
            Some(200)
        }
    } else {
        None
    }
}

/// `v` percent of the speed `speed`, rounded towards zero.
pub open spec fn scaled(speed: int, v: int) -> int {
    if speed * v >= 0 {
        (speed * v) / 100
    } else {
        -((-(speed * v)) / 100)
    }
}

/// The speeds `moves` at the speed in percent `scale`, or as they are
/// without one.
pub open spec fn turbo_moves(moves: Seq<Fixed>, scale: Option<int>) -> Seq<int> {
    Seq::new(
        moves.len(),
        |i: int|
            match scale {
                Some(v) => scaled(moves[i] as int, v),
                None => moves[i] as int,
            },
    )
}

/// Whether the product of each speed of `moves` with the speed in percent
/// fits in 32 bits.
pub open spec fn turbo_fits(moves: Seq<Fixed>, scale: Option<int>) -> bool {
    forall|i: int|
        0 <= i < moves.len() ==> match scale {
            Some(v) => i32::MIN <= #[trigger] moves[i] * v <= i32::MAX,
            None => true,
        }
}

/// `v` percent of `speed`.
fn scale_move(speed: Fixed, v: i32) -> (r: Fixed)
    requires
        i32::MIN <= speed * v <= i32::MAX,
    ensures
        r == scaled(speed as int, v as int),
{
    let product: i64 = speed as i64 * v as i64;
    if product >= 0 {
        (product / 100) as i32
    } else {
        (-((-product) / 100)) as i32
    }
}

impl State {
    /// What the command line starts the engine for. Of the flags
    /// `--dedicated`, `--search`, `--query` with an address and
    /// `--local-search`, the first in this order that is given decides;
    /// without any of them a game is started.
    pub fn startup_mode(&self) -> (mode: StartupMode)
        ensures
            match mode {
                StartupMode::Dedicated => !absent(views(self.args@), "--dedicated"@),
                StartupMode::Search => absent(views(self.args@), "--dedicated"@) && !absent(
                    views(self.args@),
                    "--search"@,
                ),
                StartupMode::Query(address) => absent(views(self.args@), "--dedicated"@) && absent(
                    views(self.args@),
                    "--search"@,
                ) && value_of(views(self.args@), "--query"@) == Some(address@),
                StartupMode::LocalSearch => absent(views(self.args@), "--dedicated"@) && absent(
                    views(self.args@),
                    "--search"@,
                ) && value_of(views(self.args@), "--query"@) is None && !absent(
                    views(self.args@),
                    "--local-search"@,
                ),
                StartupMode::Game => absent(views(self.args@), "--dedicated"@) && absent(
                    views(self.args@),
                    "--search"@,
                ) && value_of(views(self.args@), "--query"@) is None && absent(
                    views(self.args@),
                    "--local-search"@,
                ),
            },
    {
        if self.parm_exists("--dedicated") {
            return StartupMode::Dedicated;
        }
        if self.parm_exists("--search") {
            return StartupMode::Search;
        }
        match self.parm_value("--query") {
            Some(address) => {
                return StartupMode::Query(address);
            },
            None => {},
        }
        if self.parm_exists("--local-search") {
            return StartupMode::LocalSearch;
        }
        StartupMode::Game
    }

    /// The speed in percent that the flag `--turbo` asks for, if it is
    /// given.
    pub fn turbo(&self) -> (r: Option<i32>)
        ensures
            match r {
                Some(v) => turbo_scale(views(self.args@)) == Some(v as int) && 10 <= v <= 400,
                None => turbo_scale(views(self.args@)) is None,
            },
    {
        match self.check_parm("--turbo") {
            Some(p) => {
                proof {
                    let c = choose|c: int| first_at(views(self.args@), "--turbo"@, c);
                    assert(first_at(views(self.args@), "--turbo"@, c));
                    assert(c == p);
                }
                if self.args.len() - p > 1 {
                    let text = to_chars(self.args[p + 1].as_str());
                    let asked = match parse_decimal(&text) {
                        Some(v) => v,
                        None => 0,
                    };
                    Some(clamp(asked, 10, 400))
                } else {
                    Some(clamp(200, 10, 400))
                }
            },
            None => {
                assert forall|p: int| !first_at(views(self.args@), "--turbo"@, p) by {}
                None
            },
        }
    }

    /// Whether `--turbo` can be applied to the speeds of the state without
    /// leaving the 32 bits.
    pub fn turbo_in_range(&self) -> (r: bool)
        ensures
            r == (turbo_fits(self.forward_move@, turbo_scale(views(self.args@))) && turbo_fits(
                self.side_move@,
                turbo_scale(views(self.args@)),
            )),
    {
        match self.turbo() {
            Some(v) => {
                let r = fits(self.forward_move[0], v) && fits(self.forward_move[1], v) && fits(
                    self.side_move[0],
                    v,
                ) && fits(self.side_move[1], v);
                proof {
                    if !r {
                        assert(self.forward_move@[0] == self.forward_move[0]);
                        assert(self.forward_move@[1] == self.forward_move[1]);
                        assert(self.side_move@[0] == self.side_move[0]);
                        assert(self.side_move@[1] == self.side_move[1]);
                    }
                }
                r
            },
            None => true,
        }
    }

    /// Applies `--turbo` to the speeds of the player: each becomes the asked
    /// share of itself. Without the flag they stay.
    pub fn apply_turbo(&mut self)
        requires
            turbo_fits(old(self).forward_move@, turbo_scale(views(old(self).args@))),
            turbo_fits(old(self).side_move@, turbo_scale(views(old(self).args@))),
        ensures
            final(self).forward_move@.map_values(|m: Fixed| m as int) == turbo_moves(
                old(self).forward_move@,
                turbo_scale(views(old(self).args@)),
            ),
            final(self).side_move@.map_values(|m: Fixed| m as int) == turbo_moves(
                old(self).side_move@,
                turbo_scale(views(old(self).args@)),
            ),
            *final(self) == (State {
                forward_move: final(self).forward_move,
                side_move: final(self).side_move,
                ..*old(self)
            }),
    {
        let ghost scale = turbo_scale(views(self.args@));
        match self.turbo() {
            Some(v) => {
                assert(old(self).forward_move@[0] == old(self).forward_move[0]);
                assert(old(self).forward_move@[1] == old(self).forward_move[1]);
                assert(old(self).side_move@[0] == old(self).side_move[0]);
                assert(old(self).side_move@[1] == old(self).side_move[1]);
                let forward: [Fixed; 2] = [
                    scale_move(self.forward_move[0], v),
                    scale_move(self.forward_move[1], v),
                ];
                let side: [Fixed; 2] = [
                    scale_move(self.side_move[0], v),
                    scale_move(self.side_move[1], v),
                ];
                self.forward_move = forward;
                self.side_move = side;
            },
            None => {},
        }
        assert(self.forward_move@.map_values(|m: Fixed| m as int) =~= turbo_moves(
            old(self).forward_move@,
            scale,
        ));
        assert(self.side_move@.map_values(|m: Fixed| m as int) =~= turbo_moves(
            old(self).side_move@,
            scale,
        ));
    }

    /// Reads the switches of the game from the command line: which flags are
    /// given, and the rules for several players. `--alt-death` goes before
    /// `--deathmatch`; without either the rules stay.
    pub fn read_switches(&mut self)
        ensures
            final(self).no_monsters == !absent(views(old(self).args@), "--no-monsters"@),
            final(self).respawn_parm == !absent(views(old(self).args@), "--respawn"@),
            final(self).fast_parm == !absent(views(old(self).args@), "--fast"@),
            final(self).dev_parm == !absent(views(old(self).args@), "--dev-parm"@),
            final(self).display_fps_dots == final(self).dev_parm,
            final(self).multiplayer_mode == (if !absent(views(old(self).args@), "--alt-death"@) {
                MultiplayerMode::AltDeathmatch
            } else if !absent(views(old(self).args@), "--deathmatch"@) {
                MultiplayerMode::Deathmatch
            } else {
                old(self).multiplayer_mode
            }),
            *final(self) == (State {
                no_monsters: final(self).no_monsters,
                respawn_parm: final(self).respawn_parm,
                fast_parm: final(self).fast_parm,
                dev_parm: final(self).dev_parm,
                display_fps_dots: final(self).display_fps_dots,
                multiplayer_mode: final(self).multiplayer_mode,
                ..*old(self)
            }),
    {
        self.no_monsters = self.parm_exists("--no-monsters");
        self.respawn_parm = self.parm_exists("--respawn");
        self.fast_parm = self.parm_exists("--fast");
        self.dev_parm = self.parm_exists("--dev-parm");
        self.display_fps_dots = self.dev_parm;

        if self.parm_exists("--deathmatch") {
            self.multiplayer_mode = MultiplayerMode::Deathmatch;
        }
        if self.parm_exists("--alt-death") {
            self.multiplayer_mode = MultiplayerMode::AltDeathmatch;
        }
    }

    /// Reads the switches of the game from the command line, applies
    /// `--turbo` to the speeds of the player, names the configuration files
    /// and binds the configuration variables.
    ///
    /// The speeds must leave room for `--turbo`, and the input options and
    /// variables must be of their kinds: `turbo_in_range` and
    /// `input_bindings_fit` tell. The switches and the speeds are set whatever
    /// the binding does. An error says that the binding stopped at a variable
    /// that no collection declares.
    pub fn doom_main(&mut self) -> (r: Result<(), BindError>)
        requires
            turbo_fits(old(self).forward_move@, turbo_scale(views(old(self).args@))),
            turbo_fits(old(self).side_move@, turbo_scale(views(old(self).args@))),
            input_fits(*old(self)),
        ensures
            final(self).no_monsters == !absent(views(old(self).args@), "--no-monsters"@),
            final(self).respawn_parm == !absent(views(old(self).args@), "--respawn"@),
            final(self).fast_parm == !absent(views(old(self).args@), "--fast"@),
            final(self).dev_parm == !absent(views(old(self).args@), "--dev-parm"@),
            final(self).display_fps_dots == final(self).dev_parm,
            final(self).multiplayer_mode == (if !absent(views(old(self).args@), "--alt-death"@) {
                MultiplayerMode::AltDeathmatch
            } else if !absent(views(old(self).args@), "--deathmatch"@) {
                MultiplayerMode::Deathmatch
            } else {
                old(self).multiplayer_mode
            }),
            final(self).forward_move@.map_values(|m: Fixed| m as int) == turbo_moves(
                old(self).forward_move@,
                turbo_scale(views(old(self).args@)),
            ),
            final(self).side_move@.map_values(|m: Fixed| m as int) == turbo_moves(
                old(self).side_move@,
                turbo_scale(views(old(self).args@)),
            ),
            final(self).default_main_config@ == "default.cfg"@,
            final(self).default_extra_config@ == "ez_doom.cfg"@,
            registry_of(*final(self)) == input_outcome(*old(self)).0,
            match r {
                Ok(_) => input_outcome(*old(self)).1 is None,
                Err(e) => input_outcome(*old(self)).1 == Some(e),
            },
            final(self).doom_defaults.file_name == old(self).doom_defaults.file_name,
            final(self).extra_defaults.file_name == old(self).extra_defaults.file_name,
            old(self).wf() ==> final(self).wf(),
            *final(self) == (State {
                no_monsters: final(self).no_monsters,
                respawn_parm: final(self).respawn_parm,
                fast_parm: final(self).fast_parm,
                dev_parm: final(self).dev_parm,
                display_fps_dots: final(self).display_fps_dots,
                multiplayer_mode: final(self).multiplayer_mode,
                forward_move: final(self).forward_move,
                side_move: final(self).side_move,
                default_main_config: final(self).default_main_config,
                default_extra_config: final(self).default_extra_config,
                doom_defaults: final(self).doom_defaults,
                extra_defaults: final(self).extra_defaults,
                ..*old(self)
            }),
    {
        self.read_switches();
        self.apply_turbo();
        self.default_main_config = "default.cfg".to_owned();
        self.default_extra_config = "ez_doom.cfg".to_owned();
        self.bind_variables()
    }
}

/// Whether the product of `speed` and `v` fits in 32 bits.
fn fits(speed: Fixed, v: i32) -> (r: bool)
    requires
        10 <= v <= 400,
    ensures
        r == (i32::MIN <= speed * v <= i32::MAX),
{
    assert(-0x8000_0000 * 400 <= speed * v <= 0x8000_0000 * 400) by (nonlinear_arith)
        requires
            -0x8000_0000 <= speed <= 0x8000_0000,
            10 <= v <= 400,
    ;
    let product: i64 = speed as i64 * v as i64;
    -0x8000_0000 <= product && product <= 0x7fff_ffff
}

} // verus!
