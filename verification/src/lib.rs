//! Turns a plain-language description of a task into a shell command:
//! builds the completion request, classifies the endpoint's answer, asks for
//! confirmation, and decides what to report once the command has run.
//!
//! The library computes; a driver around it sends the request, reads the
//! terminal and spawns the interpreter, and hands the outcomes back as events.

pub mod completion;
pub mod config;
pub mod confirm;
pub mod execute;
pub mod failure;
pub mod json;
pub mod pipeline;
pub mod prompt;
pub mod text;
