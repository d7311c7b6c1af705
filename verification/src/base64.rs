//! Opaque binary payload carrying raw serialized object state.

use vstd::prelude::*;

verus! {

/// A byte blob holding an object's raw serialized state. The wire encoding
/// of the bytes (base64 text) is the transport's concern; this layer only
/// carries them through.
#[derive(Clone, Debug, PartialEq, Eq)]
pub struct Base64 {
    pub bytes: Vec<u8>,
}

impl View for Base64 {
    type V = Seq<u8>;

    open spec fn view(&self) -> Seq<u8> {
        self.bytes@
    }
}

impl Base64 {
    /// Wraps raw bytes as a payload.
    pub fn new(bytes: Vec<u8>) -> (r: Base64)
        ensures
            r@ == bytes@,
    {
        Base64 { bytes }
    }

    /// Copies the payload, byte for byte.
    pub fn duplicate(&self) -> (r: Base64)
        ensures
            r@ == self@,
    {
        let mut bytes: Vec<u8> = Vec::new();
        let mut i: usize = 0;
        while i < self.bytes.len()
            invariant
                i <= self.bytes.len(),
                bytes@ == self.bytes@.take(i as int),
            decreases self.bytes.len() - i,
        {
            bytes.push(self.bytes[i]);
            proof {
                assert(bytes@ =~= self.bytes@.take(i as int + 1));
            }
            i += 1;
        }
        proof {
            assert(self.bytes@.take(self.bytes@.len() as int) =~= self.bytes@);
        }
        Base64 { bytes }
    }
}

} // verus!
