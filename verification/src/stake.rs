//! Staked positions controlled by an owner.

use vstd::prelude::*;

use crate::sui_address::SuiAddress;

verus! {

/// A staked position. Connections over stakes are not yet backed by data;
/// the type gives those connections their node shape.
#[derive(Clone, Copy, Debug, PartialEq, Eq)]
pub struct Stake {
    pub address: SuiAddress,
    pub principal: u64,
}

impl View for Stake {
    type V = (Seq<u8>, u64);

    open spec fn view(&self) -> (Seq<u8>, u64) {
        (self.address@, self.principal)
    }
}

} // verus!
