//! The surface syntax of Reml.

pub mod ast;
pub mod combine;
pub mod debug_text;
pub mod driver;
pub mod grammar;
pub mod handlers;
pub mod recover;
pub mod render;
pub mod streaming_runner;
pub mod trace;
