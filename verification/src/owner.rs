//! The owner capability: what an address-identified entity owns or controls.
//!
//! Any address-identified entity can play the owner role; [`Owner`] wraps a
//! bare address in it, and [`crate::object::Object`] exposes the same
//! operations for object-owned objects. The shared resolution logic lives in
//! the free functions here, so that pagination and delegation are not
//! duplicated per entity type.

use vstd::prelude::*;

use crate::balance::Balance;
use crate::coin::Coin;
use crate::connection::Connection;
use crate::connection::EdgeView;
use crate::connection::cursor_view;
use crate::connection::page_args_conflict;
use crate::connection::page_args_valid;
use crate::connection::page_of;
use crate::error::Error;
use crate::name_service::NameService;
use crate::object::Object;
use crate::object::ObjectFilter;
use crate::object::ObjectFilterView;
use crate::object::ObjectView;
use crate::object::filter_view;
use crate::opt_text_view;
use crate::provider::DataProvider;
use crate::provider::balance_lookup;
use crate::provider::owned_entries;
use crate::stake::Stake;
use crate::sui_address::SuiAddress;

verus! {

/// An address in its owner role.
#[derive(Clone, Copy, Debug, PartialEq, Eq)]
pub struct Owner {
    pub address: SuiAddress,
}

/// What a connection request over an owner's objects must return: a call
/// requesting both pagination directions fails with `InvalidArgument` before
/// the provider is consulted; otherwise a successful result is exactly the
/// provider's page over the owner's filtered objects, passed through
/// unchanged.
pub open spec fn owned_connection_post(
    objects: Seq<EdgeView<ObjectView>>,
    owner: Seq<u8>,
    first: Option<u64>,
    after: Option<Seq<char>>,
    last: Option<u64>,
    before: Option<Seq<char>>,
    f: Option<ObjectFilterView>,
    r: Result<Connection<Object>, Error>,
) -> bool {
    &&& (page_args_conflict(first, after, last, before) ==> r == Err::<
        Connection<Object>,
        Error,
    >(Error::InvalidArgument))
    &&& (!page_args_conflict(first, after, last, before) ==> (r matches Ok(c) ==> c@ == page_of(
        owned_entries(objects, owner, f),
        first,
        after,
        last,
        before,
    )))
}

/// Law: replaying the same (owner, filter, first, after, last, before)
/// arguments against an unchanged backing store returns the same page
/// contents and cursors.
pub proof fn lemma_owned_connection_replay(
    objects: Seq<EdgeView<ObjectView>>,
    owner: Seq<u8>,
    first: Option<u64>,
    after: Option<Seq<char>>,
    last: Option<u64>,
    before: Option<Seq<char>>,
    f: Option<ObjectFilterView>,
    c1: Connection<Object>,
    c2: Connection<Object>,
)
    requires
        owned_connection_post(objects, owner, first, after, last, before, f, Ok(c1)),
        owned_connection_post(objects, owner, first, after, last, before, f, Ok(c2)),
        !page_args_conflict(first, after, last, before),
    ensures
        c1@ == c2@,
{
}

/// Paginated listing of the objects owned by `address`, refined by `filter`.
/// Contradictory pagination arguments are rejected before any provider call;
/// otherwise the request is delegated to the provider and its page, or its
/// error, is returned unchanged.
pub fn owned_object_connection<P: DataProvider>(
    provider: &P,
    address: &SuiAddress,
    first: Option<u64>,
    after: Option<String>,
    last: Option<u64>,
    before: Option<String>,
    filter: Option<ObjectFilter>,
) -> (r: Result<Connection<Object>, Error>)
    ensures
        owned_connection_post(
            provider.objects(),
            address@,
            first,
            cursor_view(after),
            last,
            cursor_view(before),
            filter_view(filter),
            r,
        ),
{
    if !page_args_valid(&first, &after, &last, &before) {
        return Err(Error::InvalidArgument);
    }
    provider.fetch_owned_objs(address, first, after, last, before, &filter)
}

/// The aggregate balance `address` controls for an optional coin type,
/// delegated to the provider; its answer, or its error, is returned
/// unchanged.
pub fn owner_balance<P: DataProvider>(
    provider: &P,
    address: &SuiAddress,
    coin_type: Option<String>,
) -> (r: Result<Balance, Error>)
    ensures
        r matches Ok(b) ==> balance_lookup(provider.balances(), address@, opt_text_view(coin_type))
            == Some(b@),
{
    provider.fetch_balance(address, coin_type)
}

impl Owner {
    /// The owning address; pure, always succeeds.
    pub fn location(&self) -> (r: SuiAddress)
        ensures
            r == self.address,
    {
        self.address
    }

    /// Paginated listing of the objects this owner owns; see
    /// [`owned_object_connection`].
    pub fn object_connection<P: DataProvider>(
        &self,
        provider: &P,
        first: Option<u64>,
        after: Option<String>,
        last: Option<u64>,
        before: Option<String>,
        filter: Option<ObjectFilter>,
    ) -> (r: Result<Connection<Object>, Error>)
        ensures
            owned_connection_post(
                provider.objects(),
                self.address@,
                first,
                cursor_view(after),
                last,
                cursor_view(before),
                filter_view(filter),
                r,
            ),
    {
        owned_object_connection(provider, &self.address, first, after, last, before, filter)
    }

    /// The aggregate balance this owner controls; see [`owner_balance`].
    pub fn balance<P: DataProvider>(&self, provider: &P, type_: Option<String>) -> (r: Result<
        Balance,
        Error,
    >)
        ensures
            r matches Ok(b) ==> balance_lookup(
                provider.balances(),
                self.address@,
                opt_text_view(type_),
            ) == Some(b@),
    {
        owner_balance(provider, &self.address, type_)
    }

    /// Balances per coin type are intentionally not backed by data yet.
    pub fn balance_connection(
        &self,
        _first: Option<u64>,
        _after: Option<String>,
        _last: Option<u64>,
        _before: Option<String>,
    ) -> (r: Result<Connection<Balance>, Error>)
        ensures
            r == Err::<Connection<Balance>, Error>(Error::Unsupported),
    {
        Err(Error::Unsupported)
    }

    /// Coin listings are intentionally not backed by data yet.
    pub fn coin_connection(
        &self,
        _first: Option<u64>,
        _after: Option<String>,
        _last: Option<u64>,
        _before: Option<String>,
        _type_: Option<String>,
    ) -> (r: Result<Connection<Coin>, Error>)
        ensures
            r == Err::<Connection<Coin>, Error>(Error::Unsupported),
    {
        Err(Error::Unsupported)
    }

    /// Stake listings are intentionally not backed by data yet.
    pub fn stake_connection(
        &self,
        _first: Option<u64>,
        _after: Option<String>,
        _last: Option<u64>,
        _before: Option<String>,
    ) -> (r: Result<Connection<Stake>, Error>)
        ensures
            r == Err::<Connection<Stake>, Error>(Error::Unsupported),
    {
        Err(Error::Unsupported)
    }

    /// Default name-service names are intentionally not backed by data yet.
    pub fn default_name_service_name(&self) -> (r: Result<Option<String>, Error>)
        ensures
            r == Err::<Option<String>, Error>(Error::Unsupported),
    {
        Err(Error::Unsupported)
    }

    /// Name-service listings are intentionally not backed by data yet.
    pub fn name_service_connection(
        &self,
        _first: Option<u64>,
        _after: Option<String>,
        _last: Option<u64>,
        _before: Option<String>,
    ) -> (r: Result<Connection<NameService>, Error>)
        ensures
            r == Err::<Connection<NameService>, Error>(Error::Unsupported),
    {
        Err(Error::Unsupported)
    }
}

} // verus!
