use vstd::prelude::*;

verus! {

/// Suppress driver error logging.
pub const SILENT: i32 = 0x0000_0001;
/// Treat failures as diagnostic, not fatal.
pub const DIAGNOSE: i32 = 0x0000_0002;
/// Isolate the command from bus reset handling.
pub const ISOLATE: i32 = 0x0000_0004;
/// Data phase transfers from the device to the caller's buffer.
pub const READ: i32 = 0x0000_0008;
/// Data phase transfers from the caller's buffer to the device.
/// This is the zero-value default: the absence of the READ bit.
pub const WRITE: i32 = 0x0000_0000;
/// Reset the target device.
pub const RESET: i32 = 0x0000_4000;
/// Reset the entire bus.
pub const RESET_ALL: i32 = 0x0000_8000;
/// Request automatic sense-data retrieval on check condition.
pub const RQENABLE: i32 = 0x0001_0000;
/// Force renegotiation of transport parameters.
pub const RENEGOT: i32 = 0x0002_0000;
/// Reset only the logical unit.
pub const RESET_LUN: i32 = 0x0004_0000;
/// Honor the descriptor's explicit transport path instance field.
pub const PATH_INSTANCE: i32 = 0x0008_0000;

/// A set of request-modifier bits. Any subset of the named bits can be
/// combined by `union`; `bits` gives the raw integer form that the command
/// descriptor carries. No validation is performed: combining bits that are
/// mutually exclusive in effect is a caller error and is not detected.
#[derive(Clone, Copy, Debug, PartialEq, Eq, Structural)]
pub struct Flags {
    bits: i32,
}

impl Flags {
    /// The raw integer form of this flag set.
    pub closed spec fn spec_bits(self) -> i32 {
        self.bits
    }

    /// The empty set: no modifier bits, which is the WRITE direction default.
    pub fn empty() -> (r: Flags)
        ensures
            r.spec_bits() == 0,
    {
        Flags { bits: 0 }
    }

    /// The flag set with exactly the given raw form.
    pub fn from_bits(bits: i32) -> (r: Flags)
        ensures
            r.spec_bits() == bits,
    {
        Flags { bits }
    }

    /// The raw integer form, as the descriptor's flags field carries it.
    pub fn bits(self) -> (r: i32)
        ensures
            r == self.spec_bits(),
    {
        self.bits
    }

    /// Combine two flag sets: the raw form of the union is the bitwise OR of
    /// the two raw forms. Combining with WRITE (raw form 0) is a no-op.
    pub fn union(self, other: Flags) -> (r: Flags)
        ensures
            r.spec_bits() == self.spec_bits() | other.spec_bits(),
            other.spec_bits() == WRITE ==> r == self,
    {
        proof {
            let a: i32 = self.bits;
            let b: i32 = other.bits;
            assert(b == 0 ==> a | b == a) by (bit_vector);
        }
        Flags { bits: self.bits | other.bits }
    }
}

/// Combining any flag set with the WRITE direction (raw form 0) leaves the
/// raw form unchanged.
pub proof fn lemma_write_union_identity(f: Flags)
    ensures
        f.spec_bits() | WRITE == f.spec_bits(),
{
    let a: i32 = f.spec_bits();
    assert(a | 0 == a) by (bit_vector);
}

} // verus!
