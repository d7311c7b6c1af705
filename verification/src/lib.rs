//! Object/owner resolution model for a ledger query layer.
//!
//! On-chain entities are exposed as one polymorphic node type ([`object::Object`])
//! that supports identity, ownership, filtering, and cursor-based pagination over
//! collections backed by an external store. All lookups go through an explicit
//! [`provider::DataProvider`] handle; the resolution layer itself owns no storage
//! and performs no blocking computation.

use vstd::prelude::*;

pub mod balance;
pub mod base64;
pub mod coin;
pub mod connection;
pub mod error;
pub mod name_service;
pub mod object;
pub mod owner;
pub mod provider;
pub mod stake;
pub mod sui_address;
pub mod transaction_block;

use crate::base64::Base64;
use crate::sui_address::SuiAddress;

verus! {

/// View of an optional text value.
pub open spec fn opt_text_view(s: Option<String>) -> Option<Seq<char>> {
    match s {
        Option::Some(t) => Option::Some(t@),
        Option::None => Option::None,
    }
}

/// View of an optional address.
pub open spec fn opt_addr_view(a: Option<SuiAddress>) -> Option<Seq<u8>> {
    match a {
        Option::Some(x) => Option::Some(x@),
        Option::None => Option::None,
    }
}

/// View of an optional binary payload.
pub open spec fn opt_bytes_view(b: Option<Base64>) -> Option<Seq<u8>> {
    match b {
        Option::Some(x) => Option::Some(x@),
        Option::None => Option::None,
    }
}

} // verus!
