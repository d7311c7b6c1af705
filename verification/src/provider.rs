//! The data provider: the external collaborator that resolves identities,
//! filters, and pagination into concrete entity data.
//!
//! [`DataProvider`] states the contract the resolution layer requires of a
//! backing store; [`MemoryProvider`] is a verified in-memory store meeting
//! it, used as the reference backend.

use vstd::prelude::*;

use crate::balance::Balance;
use crate::balance::BalanceView;
use crate::connection::Connection;
use crate::connection::Edge;
use crate::connection::EdgeView;
use crate::connection::cursor_view;
use crate::connection::edges_view;
use crate::connection::page_of;
use crate::connection::paginate;
use crate::error::Error;
use crate::object::Object;
use crate::object::ObjectFilter;
use crate::object::ObjectFilterView;
use crate::object::ObjectView;
use crate::object::filter_matches;
use crate::object::filter_type_free;
use crate::object::filter_view;
use crate::connection::page_args_conflict;
use crate::sui_address::SuiAddress;
use crate::transaction_block::TransactionBlock;

verus! {

/// A transaction lookup result agrees with the store: a record comes back
/// exactly for a digest the store resolves, and carries that digest.
pub open spec fn tx_result_matches(
    txs: Seq<Seq<char>>,
    digest: Seq<char>,
    t: Option<TransactionBlock>,
) -> bool {
    match t {
        Option::Some(tb) => txs.contains(digest) && tb@ == digest,
        Option::None => !txs.contains(digest),
    }
}

/// The first balance recorded for `owner` under `coin_type`, if any.
pub open spec fn balance_lookup(
    bs: Seq<(Seq<u8>, BalanceView)>,
    owner: Seq<u8>,
    coin_type: Option<Seq<char>>,
) -> Option<BalanceView>
    decreases bs.len(),
{
    if bs.len() == 0 {
        None
    } else if bs[0].0 == owner && bs[0].1.coin_type == coin_type {
        Some(bs[0].1)
    } else {
        balance_lookup(bs.drop_first(), owner, coin_type)
    }
}

/// The filter names only predicates a store without type metadata can
/// evaluate.
pub open spec fn filter_supported(f: Option<ObjectFilterView>) -> bool {
    match f {
        Option::Some(fv) => filter_type_free(fv),
        Option::None => true,
    }
}

/// The entry belongs to `owner` and passes the filter.
pub open spec fn entry_selected(
    e: EdgeView<ObjectView>,
    owner: Seq<u8>,
    f: Option<ObjectFilterView>,
) -> bool {
    &&& e.node.owner == Some(owner)
    &&& match f {
        Option::Some(fv) => filter_matches(fv, e.node),
        Option::None => true,
    }
}

/// The store's entries narrowed to those owned by `owner` and passing the
/// filter, in store order.
pub open spec fn owned_entries(
    es: Seq<EdgeView<ObjectView>>,
    owner: Seq<u8>,
    f: Option<ObjectFilterView>,
) -> Seq<EdgeView<ObjectView>>
    decreases es.len(),
{
    if es.len() == 0 {
        Seq::empty()
    } else {
        let init = owned_entries(es.drop_last(), owner, f);
        if entry_selected(es.last(), owner, f) {
            init.push(es.last())
        } else {
            init
        }
    }
}

/// The contract a backing store owes the resolution layer. Each request
/// receives its own request-scoped handle; a provider may fail at any time
/// (I/O, pruned history), but whatever it returns successfully must agree
/// with its abstract store model, so that replaying a request against an
/// unchanged store returns the same answer.
pub trait DataProvider {
    /// Digests of the transactions the store can resolve.
    spec fn txs(&self) -> Seq<Seq<char>>;

    /// The store's cursor-assigned, stably ordered collection of objects.
    spec fn objects(&self) -> Seq<EdgeView<ObjectView>>;

    /// The balances the store can compute, as (owner, balance) records.
    spec fn balances(&self) -> Seq<(Seq<u8>, BalanceView)>;

    /// Resolves a transaction digest to its record; `Ok(None)` when the
    /// store has no such transaction, an error only of the provider kind.
    fn fetch_tx(&self, digest: &String) -> (r: Result<Option<TransactionBlock>, Error>)
        ensures
            r matches Ok(t) ==> tx_result_matches(self.txs(), digest@, t),
            r matches Err(e) ==> e == Error::Provider,
    ;

    /// Pages through the objects `owner` owns, refined by `filter`. A
    /// successful answer is exactly the page the arguments select from the
    /// store's filtered collection.
    fn fetch_owned_objs(
        &self,
        owner: &SuiAddress,
        first: Option<u64>,
        after: Option<String>,
        last: Option<u64>,
        before: Option<String>,
        filter: &Option<ObjectFilter>,
    ) -> (r: Result<Connection<Object>, Error>)
        ensures
            r matches Ok(c) ==> c@ == page_of(
                owned_entries(self.objects(), owner@, filter_view(*filter)),
                first,
                cursor_view(after),
                last,
                cursor_view(before),
            ),
    ;

    /// Computes the aggregate balance `owner` controls for `coin_type`. A
    /// successful answer is exactly the store's record for that pair.
    fn fetch_balance(&self, owner: &SuiAddress, coin_type: Option<String>) -> (r: Result<
        Balance,
        Error,
    >)
        ensures
            r matches Ok(b) ==> balance_lookup(
                self.balances(),
                owner@,
                crate::opt_text_view(coin_type),
            ) == Some(b@),
    ;
}

/// A balance record of the in-memory store.
#[derive(Clone, Debug, PartialEq, Eq)]
pub struct BalanceRecord {
    pub owner: SuiAddress,
    pub balance: Balance,
}

/// An in-memory backing store: the verified reference implementation of
/// [`DataProvider`]. Objects are held in cursor-assigned store order;
/// `pruned` names transaction digests whose history the store has discarded,
/// so that resolving them fails with a provider error.
pub struct MemoryProvider {
    pub objects: Vec<Edge<Object>>,
    pub transactions: Vec<TransactionBlock>,
    pub pruned: Vec<String>,
    pub balances: Vec<BalanceRecord>,
}

impl MemoryProvider {
    /// An empty store.
    pub fn new() -> (r: MemoryProvider)
        ensures
            r.txs() == Seq::<Seq<char>>::empty(),
            r.objects() == Seq::<EdgeView<ObjectView>>::empty(),
            r.balances() == Seq::<(Seq<u8>, BalanceView)>::empty(),
    {
        let r = MemoryProvider {
            objects: Vec::new(),
            transactions: Vec::new(),
            pruned: Vec::new(),
            balances: Vec::new(),
        };
        proof {
            assert(r.txs() =~= Seq::<Seq<char>>::empty());
            assert(r.objects() =~= Seq::<EdgeView<ObjectView>>::empty());
            assert(r.balances() =~= Seq::<(Seq<u8>, BalanceView)>::empty());
        }
        r
    }

    /// Digests whose history this store has discarded.
    pub open spec fn pruned_digests(&self) -> Seq<Seq<char>> {
        self.pruned@.map_values(|s: String| s@)
    }

    /// Transaction lookup of this store: fails, with a provider error,
    /// exactly on pruned digests; otherwise resolves exactly the stored
    /// transactions.
    pub fn lookup_tx(&self, digest: &String) -> (r: Result<Option<TransactionBlock>, Error>)
        ensures
            self.pruned_digests().contains(digest@) ==> r == Err::<
                Option<TransactionBlock>,
                Error,
            >(Error::Provider),
            !self.pruned_digests().contains(digest@) ==> (r matches Ok(t) && tx_result_matches(
                self.txs(),
                digest@,
                t,
            )),
    {
        let ghost prunedv = self.pruned_digests();
        let mut i: usize = 0;
        while i < self.pruned.len()
            invariant
                i <= self.pruned@.len(),
                prunedv == self.pruned_digests(),
                prunedv.len() == self.pruned@.len(),
                forall|k: int| 0 <= k < i ==> prunedv[k] != digest@,
            decreases self.pruned@.len() - i,
        {
            proof {
                assert(prunedv[i as int] == self.pruned@[i as int]@);
            }
            if self.pruned[i] == *digest {
                proof {
                    assert(prunedv.contains(digest@));
                }
                return Err(Error::Provider);
            }
            i += 1;
        }
        proof {
            assert(forall|k: int| 0 <= k < prunedv.len() ==> prunedv[k] != digest@);
            assert(!prunedv.contains(digest@));
        }
        let ghost txsv = self.txs();
        let mut j: usize = 0;
        while j < self.transactions.len()
            invariant
                j <= self.transactions@.len(),
                txsv == self.txs(),
                txsv.len() == self.transactions@.len(),
                !self.pruned_digests().contains(digest@),
                forall|k: int| 0 <= k < j ==> txsv[k] != digest@,
            decreases self.transactions@.len() - j,
        {
            proof {
                assert(txsv[j as int] == self.transactions@[j as int]@);
            }
            if self.transactions[j].digest == *digest {
                proof {
                    assert(txsv.contains(digest@));
                }
                return Ok(Some(TransactionBlock { digest: self.transactions[j].digest.clone() }));
            }
            j += 1;
        }
        proof {
            assert(forall|k: int| 0 <= k < txsv.len() ==> txsv[k] != digest@);
            assert(!txsv.contains(digest@));
        }
        Ok(None)
    }

    /// Owned-object lookup of this store: rejects, with an invalid-argument
    /// error, exactly the calls whose pagination arguments request both
    /// directions or whose filter carries a type predicate this store cannot
    /// evaluate; every other call succeeds with exactly the page the
    /// arguments select.
    pub fn lookup_owned_objects(
        &self,
        owner: &SuiAddress,
        first: Option<u64>,
        after: Option<String>,
        last: Option<u64>,
        before: Option<String>,
        filter: &Option<ObjectFilter>,
    ) -> (r: Result<Connection<Object>, Error>)
        ensures
            (page_args_conflict(first, cursor_view(after), last, cursor_view(before))
                || !filter_supported(filter_view(*filter))) ==> r == Err::<
                Connection<Object>,
                Error,
            >(Error::InvalidArgument),
            !(page_args_conflict(first, cursor_view(after), last, cursor_view(before))
                || !filter_supported(filter_view(*filter))) ==> (r matches Ok(c) && c@ == page_of(
                owned_entries(self.objects(), owner@, filter_view(*filter)),
                first,
                cursor_view(after),
                last,
                cursor_view(before),
            )),
    {
        // This store carries no type metadata, so a filter over package,
        // module or type is an unsupported combination rather than a guess.
        if let Some(f) = filter {
            if f.package.is_some() || f.module.is_some() || f.ty.is_some() {
                return Err(Error::InvalidArgument);
            }
        }
        let ghost fv = filter_view(*filter);
        let ghost es = edges_view(self.objects@);
        let mut selected: Vec<Edge<Object>> = Vec::new();
        let mut i: usize = 0;
        while i < self.objects.len()
            invariant
                i <= self.objects@.len(),
                es == edges_view(self.objects@),
                es.len() == self.objects@.len(),
                fv == filter_view(*filter),
                edges_view(selected@) == owned_entries(es.take(i as int), owner@, fv),
            decreases self.objects@.len() - i,
        {
            proof {
                assert(es[i as int] == self.objects@[i as int]@);
            }
            let e = &self.objects[i];
            let keep = match &e.node.owner {
                Some(a) => {
                    if a.eq_address(owner) {
                        match filter {
                            Some(f) => f.matches_object(&e.node),
                            None => true,
                        }
                    } else {
                        false
                    }
                },
                None => false,
            };
            proof {
                assert(keep == entry_selected(es[i as int], owner@, fv));
                assert(es.take(i as int + 1).drop_last() =~= es.take(i as int));
                assert(es.take(i as int + 1).last() == es[i as int]);
            }
            if keep {
                let edge = Edge { cursor: e.cursor.clone(), node: e.node.duplicate() };
                proof {
                    assert(edge@ =~= es[i as int]);
                }
                selected.push(edge);
                proof {
                    assert(edges_view(selected@) =~= owned_entries(
                        es.take(i as int),
                        owner@,
                        fv,
                    ).push(es[i as int]));
                }
            } else {
                proof {
                    assert(edges_view(selected@) =~= owned_entries(es.take(i as int), owner@, fv));
                }
            }
            i += 1;
        }
        proof {
            assert(es.take(self.objects@.len() as int) =~= es);
        }
        paginate(selected, first, after, last, before)
    }

    /// Balance lookup of this store: succeeds exactly when a record for the
    /// owner and coin type exists, and fails with a not-found error
    /// otherwise.
    pub fn lookup_balance(&self, owner: &SuiAddress, coin_type: Option<String>) -> (r: Result<
        Balance,
        Error,
    >)
        ensures
            match balance_lookup(self.balances(), owner@, crate::opt_text_view(coin_type)) {
                Some(bv) => r matches Ok(b) && b@ == bv,
                None => r == Err::<Balance, Error>(Error::NotFound),
            },
    {
        let ghost bsv = self.balances();
        let ghost ctv = crate::opt_text_view(coin_type);
        proof {
            assert(bsv.skip(0) =~= bsv);
        }
        let mut i: usize = 0;
        while i < self.balances.len()
            invariant
                i <= self.balances@.len(),
                bsv == self.balances(),
                bsv.len() == self.balances@.len(),
                ctv == crate::opt_text_view(coin_type),
                balance_lookup(bsv, owner@, ctv) == balance_lookup(bsv.skip(i as int), owner@, ctv),
            decreases self.balances@.len() - i,
        {
            proof {
                assert(bsv[i as int] == (self.balances@[i as int].owner@,
                self.balances@[i as int].balance@));
            }
            let rec = &self.balances[i];
            let ct_match = match &rec.balance.coin_type {
                None => coin_type.is_none(),
                Some(a) => match &coin_type {
                    Some(b) => *a == *b,
                    None => false,
                },
            };
            proof {
                assert(bsv.skip(i as int)[0] == bsv[i as int]);
            }
            if rec.owner.eq_address(owner) && ct_match {
                proof {
                    assert(bsv.skip(i as int)[0].0 == owner@);
                    assert(bsv.skip(i as int)[0].1.coin_type == ctv);
                    assert(balance_lookup(bsv.skip(i as int), owner@, ctv) == Some(bsv[i as int].1));
                }
                return Ok(rec.balance.duplicate());
            }
            proof {
                assert(bsv.skip(i as int).drop_first() =~= bsv.skip(i as int + 1));
                assert(!(bsv.skip(i as int)[0].0 == owner@ && bsv.skip(i as int)[0].1.coin_type
                    == ctv));
            }
            i += 1;
        }
        proof {
            assert(bsv.skip(bsv.len() as int) =~= Seq::<(Seq<u8>, BalanceView)>::empty());
        }
        Err(Error::NotFound)
    }
}

impl DataProvider for MemoryProvider {
    open spec fn txs(&self) -> Seq<Seq<char>> {
        self.transactions@.map_values(|t: TransactionBlock| t@)
    }

    open spec fn objects(&self) -> Seq<EdgeView<ObjectView>> {
        edges_view(self.objects@)
    }

    open spec fn balances(&self) -> Seq<(Seq<u8>, BalanceView)> {
        self.balances@.map_values(|b: BalanceRecord| (b.owner@, b.balance@))
    }

    fn fetch_tx(&self, digest: &String) -> (r: Result<Option<TransactionBlock>, Error>) {
        self.lookup_tx(digest)
    }

    fn fetch_owned_objs(
        &self,
        owner: &SuiAddress,
        first: Option<u64>,
        after: Option<String>,
        last: Option<u64>,
        before: Option<String>,
        filter: &Option<ObjectFilter>,
    ) -> (r: Result<Connection<Object>, Error>) {
        self.lookup_owned_objects(owner, first, after, last, before, filter)
    }

    fn fetch_balance(&self, owner: &SuiAddress, coin_type: Option<String>) -> (r: Result<
        Balance,
        Error,
    >) {
        self.lookup_balance(owner, coin_type)
    }
}

} // verus!
