//! Session core of a headless terminal multiplexer: the rules that route
//! input, describe the emulated screen, and coordinate shutdown.

pub mod activity;
pub mod broker;
pub mod input;
pub mod parser;
pub mod pump;
pub mod pty;
pub mod shutdown;
pub mod terminal;
