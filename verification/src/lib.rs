//! A CHIP-8 interpreter core: machine state, instruction decoding and the
//! semantics of every instruction, stated over a mathematical model of the
//! machine and verified against it.

pub mod fault;
pub mod sprite;
pub mod machine;
pub mod cpu;
mod drawing;
pub mod host;
pub mod laws;
mod rng;
