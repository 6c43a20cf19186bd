//! The state of the engine's start-up: the command line, what was read from
//! it, and the configuration variables.

use vstd::prelude::*;
use crate::defaults::{
    declared_all, doom_defaults_init, extra_defaults_init, DefaultCollection, Kind, DOOM_DEFAULTS,
    EXTRA_DEFAULTS,
};
use crate::options::{
    input_fits, Controls, InputOptions, JoystickOptions, SoundOptions, VideoOptions,
};
use crate::types::{Fixed, MultiplayerMode};

verus! {

pub struct State {
    /// The command line, the program's name first.
    pub args: Vec<String>,
    /// Whether a base game file has been claimed among the loose files.
    pub iwad_found: bool,
    pub iwad_file: String,
    pub no_monsters: bool,
    pub respawn_parm: bool,
    pub fast_parm: bool,
    pub dev_parm: bool,
    pub display_fps_dots: bool,
    pub multiplayer_mode: MultiplayerMode,
    pub config_dir: String,
    pub default_main_config: String,
    pub default_extra_config: String,
    pub forward_move: [Fixed; 2],
    pub side_move: [Fixed; 2],
    pub input_options: InputOptions,
    pub video_options: VideoOptions,
    pub joystick_options: JoystickOptions,
    pub sound_options: SoundOptions,
    pub controls: Controls,
    /// The variables of the main configuration file.
    pub doom_defaults: DefaultCollection,
    /// The variables of the extra configuration file.
    pub extra_defaults: DefaultCollection,
}

impl State {
    /// This state with other arguments and another mark for the base game
    /// file, and everything else as it is.
    pub open spec fn with_args(self, args: Vec<String>, iwad_found: bool) -> State {
        State { args, iwad_found, ..self }
    }

    /// Every variable of both collections is well formed, and its slot is of
    /// its kind.
    pub open spec fn wf(&self) -> bool {
        self.doom_defaults.wf() && self.extra_defaults.wf()
    }
}

impl Default for State {
    /// The state before the command line is read: no arguments, every flag
    /// off, the usual speeds, and both collections as declared.
    fn default() -> (r: Self)
        ensures
            r.args@.len() == 0,
            !r.iwad_found,
            r.iwad_file@.len() == 0,
            !r.no_monsters && !r.respawn_parm && !r.fast_parm && !r.dev_parm && !r.display_fps_dots,
            r.multiplayer_mode == MultiplayerMode::CoOp,
            r.config_dir@.len() == 0,
            r.default_main_config@.len() == 0,
            r.default_extra_config@.len() == 0,
            r.forward_move@ == seq![0x19i32, 0x32i32],
            r.side_move@ == seq![0x18i32, 0x28i32],
            r.input_options.mouse_acceleration.slot_kind() == Kind::Float,
            r.input_options.mouse_threshold.slot_kind() == Kind::Int,
            r.input_options.vanilla_keyboard_mapping.slot_kind() == Kind::Int,
            r.input_options.novert.slot_kind() == Kind::Int,
            r.video_options.usemouse.slot_kind() == Kind::Int,
            r.video_options.fullscreen.slot_kind() == Kind::Int,
            r.video_options.video_display.slot_kind() == Kind::Int,
            r.doom_defaults.variables() == declared_all(DOOM_DEFAULTS@),
            r.doom_defaults.file_name@.len() == 0,
            r.extra_defaults.variables() == declared_all(EXTRA_DEFAULTS@),
            r.extra_defaults.file_name@.len() == 0,
            r.wf(),
            input_fits(r),
    {
        proof {
            crate::names::lemma_input_variables_declared();
        }
        let forward_move: [Fixed; 2] = [0x19, 0x32];
        let side_move: [Fixed; 2] = [0x18, 0x28];
        assert(forward_move@ =~= seq![0x19i32, 0x32i32]);
        assert(side_move@ =~= seq![0x18i32, 0x28i32]);
        Self {
            args: Vec::new(),
            iwad_found: false,
            iwad_file: String::new(),
            no_monsters: false,
            respawn_parm: false,
            fast_parm: false,
            dev_parm: false,
            display_fps_dots: false,
            multiplayer_mode: MultiplayerMode::CoOp,
            config_dir: String::new(),
            default_main_config: String::new(),
            default_extra_config: String::new(),
            forward_move,
            side_move,
            input_options: InputOptions::default(),
            video_options: VideoOptions::default(),
            joystick_options: JoystickOptions::default(),
            sound_options: SoundOptions::default(),
            controls: Controls::default(),
            doom_defaults: doom_defaults_init(),
            extra_defaults: extra_defaults_init(),
        }
    }
}

} // verus!
