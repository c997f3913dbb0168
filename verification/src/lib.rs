//! A small terminal-dashboard core: a selection cursor over a fixed list
//! with wraparound navigation, the application state it lives in, and the
//! event-dispatch step of the main loop. Terminal I/O stays outside.

pub mod app;
pub mod cursor;
pub mod events;
