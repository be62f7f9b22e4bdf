//! Where the debugger's instruction listing stands while the machine runs.
use vstd::prelude::*;

verus! {

/// The address the listing shows and whether the debugger is (now) in
/// debug mode, once a frame has run. In debug mode nothing changes. While
/// running with a breakpoint set, the listing stays at the watched address
/// and the debugger stops when the program counter stands there; with no
/// breakpoint the listing follows the program counter.
pub fn follow_program_counter(debug_mode: bool, breakpoint_set: bool, address: u32, pc: u32) -> (r: (
    u32,
    bool,
))
    ensures
        r == (if debug_mode {
            (address, true)
        } else if breakpoint_set {
            (address, address == pc)
        } else {
            (pc, false)
        }),
{
    if debug_mode {
        (address, true)
    } else if breakpoint_set {
        (address, address == pc)
    } else {
        (pc, false)
    }
}

} // verus!
