//! Transaction records reachable from an object's causal predecessor.

use vstd::prelude::*;

verus! {

/// A transaction record, identified by its digest. An object's
/// `previous_transaction` field names the transaction that produced the
/// object's current version.
#[derive(Clone, Debug, PartialEq, Eq)]
pub struct TransactionBlock {
    pub digest: String,
}

impl View for TransactionBlock {
    type V = Seq<char>;

    open spec fn view(&self) -> Seq<char> {
        self.digest@
    }
}

impl TransactionBlock {
    /// Wraps a digest as a transaction record.
    pub fn new(digest: String) -> (r: TransactionBlock)
        ensures
            r@ == digest@,
    {
        TransactionBlock { digest }
    }

    /// The digest identifying this transaction.
    pub fn digest(&self) -> (r: String)
        ensures
            r@ == self@,
    {
        self.digest.clone()
    }
}

} // verus!
