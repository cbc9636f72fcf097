//! Typed modules, their lowering to MIR, and what type checking reports
//! about them.

pub mod artifacts;
pub mod mir;
pub mod typed;
