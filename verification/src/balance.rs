//! Aggregate coin balances computed by the data provider.

use vstd::prelude::*;

use crate::opt_text_view;

verus! {

/// Mathematical model of a balance.
#[verifier::ext_equal]
pub struct BalanceView {
    pub coin_type: Option<Seq<char>>,
    pub total: u64,
}

/// The aggregate balance an owner controls, optionally restricted to one
/// fungible coin type.
#[derive(Clone, Debug, PartialEq, Eq)]
pub struct Balance {
    pub coin_type: Option<String>,
    pub total: u64,
}

impl View for Balance {
    type V = BalanceView;

    open spec fn view(&self) -> BalanceView {
        BalanceView { coin_type: opt_text_view(self.coin_type), total: self.total }
    }
}

impl Balance {
    /// Copies the balance record.
    pub fn duplicate(&self) -> (r: Balance)
        ensures
            r@ == self@,
    {
        let coin_type = match &self.coin_type {
            Some(t) => Some(t.clone()),
            None => None,
        };
        Balance { coin_type, total: self.total }
    }
}

} // verus!
