//! Watches a game server through the text it prints: every console line is
//! sorted into a small set of records, the join and leave records keep a
//! roster of who is connected, and commands go out over an interactive
//! console whose answer is cut from the stream that carries it.
//!
//! Nothing here performs I/O. The stream tailer and the command channel are
//! state machines that say what to read or write next and take what came
//! back; a driver outside this crate does the reading and writing.

pub mod text;
pub mod pattern;
pub mod classifier;
pub mod roster;
pub mod tailer;
pub mod channel;
pub mod log_manager;
pub mod ui;
