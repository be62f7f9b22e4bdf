//! Verified core of a Game Boy Advance emulator: the ARM7TDMI processor,
//! the system bus with its memory regions and I/O registers, the machine's
//! cycle loop, the picture processing unit, and the debugger's
//! disassembler and video RAM pictures.
use vstd::prelude::*;

pub mod bits;
pub mod arm7tdmi;
pub mod ppu;
pub mod system;
pub mod memory;
pub mod debugging;


verus! {
} // verus!
