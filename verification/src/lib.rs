//! The decisions of a Mosh client: what bytes a key press or a mouse event
//! sends to the remote terminal, and what a running session does next.
//!
//! Everything here works on plain values. Sockets, the terminal and the clock
//! belong to the program around the library.
pub mod effect_laws;
pub mod encoding;
pub mod input;
pub mod keys;
pub mod mouse;
pub mod mouse_laws;
pub mod options;
pub mod session;
pub mod session_laws;
