//! Decoding and executing 16-bit ARMv7-M Thumb instructions.
//!
//! A declarative catalog of instruction encodings is compiled into a dense
//! table of all 65,536 opcodes; a virtual processor fetches halfwords from a
//! memory image, looks them up in that table and executes them.

use vstd::prelude::*;

pub mod decode;
pub mod instructions;
pub mod loader;
pub mod memory;
pub mod processor;

verus! {

} // verus!
