//! Trap causes that the bus reports to the execution core.

use vstd::prelude::*;

verus! {

/// A trap cause produced when a bus access cannot be dispatched. The
/// execution core turns it into a trap; the bus itself never aborts on a bad
/// guest address.
#[derive(Clone, Copy, Debug, PartialEq, Eq, Structural)]
pub enum Exception {
    /// The access touched an address that no window claims at that width, or
    /// ran past the end of the loaded image.
    InstructionAccessFault,
    /// The access was not aligned as the target requires.
    InstructionAddressMisaligned,
}

} // verus!
