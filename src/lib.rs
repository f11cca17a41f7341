//! A CHIP-8 interpreter core: machine state, opcode decoding and the
//! fetch/decode/execute cycle, each stated and proved against a model.
use vstd::prelude::*;

pub mod chip8;
pub mod cpu;
pub mod instruction;
pub mod laws;
pub mod semantics;
mod random;

verus! {

} // verus!
