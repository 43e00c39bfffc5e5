//! Logic of a terminal client that browses a remote ROM collection over SSH,
//! lets the user pick ROMs per console and downloads them: the application
//! state machine, the remote paths and commands it derives, the parsing of
//! directory listings and the formatting of sizes.

pub mod app_state;
pub mod laws;
pub mod list_cursor;
pub mod remote;
pub mod screen;
pub mod text;
pub mod transitions;
pub mod utils;
