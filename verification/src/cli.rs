//! The program: its commands, what it decides while they run, and what it says.
pub mod commands;
pub mod listen;
pub mod listen_laws;
pub mod output;
pub mod output_laws;
pub mod probe;
pub mod progress;
pub mod vpc;
