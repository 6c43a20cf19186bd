//! The start-up of a classic game engine: what it makes of its command
//! line, and how it keeps its configuration.
//!
//! The command line comes as a list of arguments. A list that holds nothing
//! but loose files is rewritten into flags (`argv`), and response files are
//! expanded into the arguments they stand for (`response`). The engine then
//! reads its switches from the list (`startup`).
//!
//! The configuration is a registry of named, typed variables (`defaults`),
//! bound to the fields of the engine that they configure (`options`), and
//! loaded from and saved to text files of one line for each variable
//! (`config`). What a saved file gives back when it is loaded is shown in
//! `round_trip`, and that the declared names are distinct words in `names`.
//!
//! Files are read and written by the program around this library. The
//! library is handed their text and hands back lines.

pub mod argv;
pub mod config;
pub mod defaults;
pub mod iwad;
pub mod keys;
pub mod names;
pub mod number;
pub mod options;
pub mod response;
pub mod round_trip;
pub mod startup;
pub mod state;
pub mod text;
pub mod types;
