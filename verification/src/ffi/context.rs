//! The register snapshot that an inline probe sees.

use vstd::prelude::*;

verus! {

/// Number of general-purpose registers in a capture context.
pub const REGISTER_COUNT: usize = 31;

/// The general-purpose registers captured at an intercepted instruction,
/// each as its full 64-bit value.
#[derive(Clone, Copy, Debug, PartialEq, Eq)]
pub struct CaptureContext {
    pub registers: [u64; 31],
}

impl CaptureContext {
    /// The 64-bit values of the registers, by index.
    pub open spec fn values(self) -> Seq<u64> {
        self.registers@
    }

    /// A context holding the given register values.
    pub fn new(registers: [u64; 31]) -> (ctx: CaptureContext)
        ensures
            ctx.values() == registers@,
    {
        CaptureContext { registers }
    }

    /// The 64-bit value of register `index`.
    pub fn read(&self, index: usize) -> (value: u64)
        requires
            index < REGISTER_COUNT,
        ensures
            value == self.values()[index as int],
    {
        self.registers[index]
    }

    /// Replaces the 64-bit value of register `index`, leaving the others alone.
    pub fn write(&mut self, index: usize, value: u64)
        requires
            index < REGISTER_COUNT,
        ensures
            final(self).values() == old(self).values().update(index as int, value),
    {
        proof {
            broadcast use vstd::array::group_array_axioms;
        }
        self.registers[index] = value;
    }

    /// All register values, by index.
    pub fn registers(&self) -> (values: [u64; 31])
        ensures
            values@ == self.values(),
    {
        self.registers
    }
}

} // verus!
