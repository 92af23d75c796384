//! A cell-level terminal driver: it keeps an in-memory grid of styled
//! character cells, renders the grid as a stream of ANSI escape sequences,
//! decodes the raw TTY input byte stream into keyboard events, and manages
//! the raw-mode terminal attributes and the session lifecycle.
//!
//! All device I/O (opening the TTY, the termios syscalls, reads and writes)
//! lives outside this crate; the library computes what to write and decides
//! what the bytes that were read mean.

pub mod attributes;
pub mod color;
pub mod decode;
pub mod event;
pub mod grid;
pub mod input;
pub mod keyboard;
pub mod mouse;
pub mod output;
pub mod render;
pub mod session;
pub mod style;
pub mod termcodes;
pub mod termmode;
