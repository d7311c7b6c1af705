//! Coin objects controlled by an owner.

use vstd::prelude::*;

use crate::sui_address::SuiAddress;

verus! {

/// A coin object. Connections over coins are not yet backed by data; the
/// type gives those connections their node shape.
#[derive(Clone, Copy, Debug, PartialEq, Eq)]
pub struct Coin {
    pub address: SuiAddress,
    pub balance: u64,
}

impl View for Coin {
    type V = (Seq<u8>, u64);

    open spec fn view(&self) -> (Seq<u8>, u64) {
        (self.address@, self.balance)
    }
}

} // verus!
