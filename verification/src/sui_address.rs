//! Fixed-width opaque identifier shared by objects and owners.

use vstd::prelude::*;

verus! {

/// A fixed-size opaque identifier. The same namespace serves as object
/// identity and as owner identity; equality is byte-wise.
#[derive(Clone, Copy, Debug, PartialEq, Eq, Hash)]
pub struct SuiAddress {
    pub bytes: [u8; 32],
}

impl View for SuiAddress {
    type V = Seq<u8>;

    open spec fn view(&self) -> Seq<u8> {
        self.bytes@
    }
}

impl SuiAddress {
    /// Wraps raw bytes as an address.
    pub fn new(bytes: [u8; 32]) -> (r: SuiAddress)
        ensures
            r@ == bytes@,
    {
        SuiAddress { bytes }
    }

    /// Byte-wise equality of two addresses.
    pub fn eq_address(&self, other: &SuiAddress) -> (r: bool)
        ensures
            r == (self@ == other@),
    {
        let mut i: usize = 0;
        while i < 32
            invariant
                i <= 32,
                forall|j: int| 0 <= j < i ==> self.bytes@[j] == other.bytes@[j],
            decreases 32 - i,
        {
            if self.bytes[i] != other.bytes[i] {
                proof {
                    assert(self@[i as int] != other@[i as int]);
                }
                return false;
            }
            i += 1;
        }
        proof {
            assert(self@ =~= other@);
        }
        true
    }
}

} // verus!
