//! The MMU programme of a machine that has no MMU to set up, such as the
//! host on which the library is built and tested: nothing is to be done.

use crate::register::Operation;
use vstd::prelude::*;

verus! {

/// Plans what the core with the given number does to run with the MMU
/// enabled: nothing.
pub fn initialize_mmu(_core: u32) -> (operations: Vec<Operation>)
    ensures
        operations@.len() == 0,
{
    Vec::new()
}

/// Plans what switches the MMU off: nothing.
pub fn disable_mmu() -> (operations: Vec<Operation>)
    ensures
        operations@.len() == 0,
{
    Vec::new()
}

} // verus!
