//! Input routing between the local terminal, remote clients, and the PTY.

pub mod mode;
pub mod route;

pub use mode::{InputMode, Mode};
