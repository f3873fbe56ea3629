//! An interpreter for the CHIP-8 instruction set: the machine's state, its
//! decoder, its instructions, its timers and the step that drives them.

pub mod decode;
pub mod screen;
pub mod model;
pub mod machine;
pub mod rom;
pub mod laws;
mod chance;
