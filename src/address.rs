//! Account identities.
use vstd::prelude::*;

verus! {

/// Length in bytes of an account address.
pub const ADDRESS_LEN: usize = 32;

/// An account address: a fixed-size byte string. Two addresses are the same
/// identity exactly when their bytes are equal.
#[derive(Clone, Copy, Debug)]
pub struct Address {
    pub bytes: [u8; 32],
}

impl Address {
    /// The address with the given bytes.
    pub fn from_bytes(bytes: [u8; 32]) -> (r: Address)
        ensures
            r.bytes == bytes,
    {
        Address { bytes }
    }

    /// The address whose bytes are all `b`.
    pub fn repeat_byte(b: u8) -> (r: Address)
        ensures
            forall|i: int| 0 <= i < 32 ==> #[trigger] r.bytes@[i] == b,
    {
        Address { bytes: [b; 32] }
    }

    /// Compares two addresses byte by byte.
    pub fn same_as(&self, other: &Address) -> (r: bool)
        ensures
            r == (*self == *other),
    {
        let mut i: usize = 0;
        while i < ADDRESS_LEN
            invariant
                i <= ADDRESS_LEN,
                forall|j: int| 0 <= j < i ==> self.bytes@[j] == other.bytes@[j],
            decreases ADDRESS_LEN - i,
        {
            if self.bytes[i] != other.bytes[i] {
                return false;
            }
            i = i + 1;
        }
        assert(self.bytes =~= other.bytes);
        true
    }
}

impl PartialEq for Address {
    fn eq(&self, other: &Address) -> (r: bool) {
        self.same_as(other)
    }
}

impl Eq for Address {
}

impl vstd::std_specs::cmp::PartialEqSpecImpl for Address {
    open spec fn obeys_eq_spec() -> bool {
        true
    }

    open spec fn eq_spec(&self, other: &Address) -> bool {
        *self == *other
    }
}

} // verus!
