//! The central node type: a versioned unit of on-chain state, and the
//! filter/key value objects that narrow a collection query.

use vstd::prelude::*;

use crate::balance::Balance;
use crate::base64::Base64;
use crate::coin::Coin;
use crate::connection::Connection;
use crate::connection::cursor_view;
use crate::error::Error;
use crate::name_service::NameService;
use crate::opt_addr_view;
use crate::opt_bytes_view;
use crate::opt_text_view;
use crate::owner::Owner;
use crate::owner::owned_connection_post;
use crate::owner::owned_object_connection;
use crate::owner::owner_balance;
use crate::provider::DataProvider;
use crate::provider::balance_lookup;
use crate::provider::tx_result_matches;
use crate::stake::Stake;
use crate::sui_address::SuiAddress;
use crate::transaction_block::TransactionBlock;

verus! {

/// Discriminant of an object's ownership shape.
#[derive(Clone, Copy, Debug, PartialEq, Eq, Structural)]
pub enum ObjectKind {
    /// Owned directly by an address.
    Owned,
    /// Owned by another object.
    Child,
    /// Shared: no single exclusive owner exists.
    Shared,
    /// Immutable: no mutable owner exists.
    Immutable,
}

/// The literal tag under which a kind is serialized.
pub open spec fn kind_tag(k: ObjectKind) -> Seq<char> {
    match k {
        ObjectKind::Owned => "OWNED"@,
        ObjectKind::Child => "CHILD"@,
        ObjectKind::Shared => "SHARED"@,
        ObjectKind::Immutable => "IMMUTABLE"@,
    }
}

impl ObjectKind {
    /// The literal tag under which this kind is serialized.
    pub fn tag(&self) -> (r: &'static str)
        ensures
            r@ == kind_tag(*self),
    {
        match self {
            ObjectKind::Owned => "OWNED",
            ObjectKind::Child => "CHILD",
            ObjectKind::Shared => "SHARED",
            ObjectKind::Immutable => "IMMUTABLE",
        }
    }
}

/// Mathematical model of an object.
#[verifier::ext_equal]
pub struct ObjectView {
    pub address: Seq<u8>,
    pub version: u64,
    pub digest: Seq<char>,
    pub storage_rebate: Option<u64>,
    pub owner: Option<Seq<u8>>,
    pub bcs: Option<Seq<u8>>,
    pub previous_transaction: Option<Seq<char>>,
    pub kind: Option<ObjectKind>,
}

/// A versioned unit of on-chain state. Every value is a transient,
/// request-scoped projection supplied by the data provider; no field is
/// mutated after construction.
#[derive(Clone, Debug, PartialEq, Eq)]
pub struct Object {
    /// Immutable identity.
    pub address: SuiAddress,
    /// Monotonically increasing per address.
    pub version: u64,
    /// Content hash of the object at this version.
    pub digest: String,
    /// Economic metadata; may be absent.
    pub storage_rebate: Option<u64>,
    /// Nominal owner reference; present unless the object is immutable or
    /// shared.
    pub owner: Option<SuiAddress>,
    /// Raw serialized state; the provider may omit it for size reasons.
    pub bcs: Option<Base64>,
    /// Digest of the transaction that produced this version; absent only for
    /// genesis-created objects.
    pub previous_transaction: Option<String>,
    /// Ownership discriminant.
    pub kind: Option<ObjectKind>,
}

impl View for Object {
    type V = ObjectView;

    open spec fn view(&self) -> ObjectView {
        ObjectView {
            address: self.address@,
            version: self.version,
            digest: self.digest@,
            storage_rebate: self.storage_rebate,
            owner: opt_addr_view(self.owner),
            bcs: opt_bytes_view(self.bcs),
            previous_transaction: opt_text_view(self.previous_transaction),
            kind: self.kind,
        }
    }
}

/// The owner address that counts as a mutation authority: none for a shared
/// or immutable object, the nominal owner otherwise.
pub open spec fn mutation_authority(o: ObjectView) -> Option<Seq<u8>> {
    if o.kind == Some(ObjectKind::Shared) || o.kind == Some(ObjectKind::Immutable) {
        None
    } else {
        o.owner
    }
}

/// Law: a shared or immutable object grants no mutation authority, even
/// when a nominal owner value is present on it.
pub proof fn lemma_shared_immutable_owner_not_authoritative(o: ObjectView)
    requires
        o.kind == Some(ObjectKind::Shared) || o.kind == Some(ObjectKind::Immutable),
    ensures
        mutation_authority(o) is None,
{
}

impl Object {
    /// The object's version.
    pub fn version(&self) -> (r: u64)
        ensures
            r == self.version,
    {
        self.version
    }

    /// The content digest of this version.
    pub fn digest(&self) -> (r: String)
        ensures
            r@ == self.digest@,
    {
        self.digest.clone()
    }

    /// The storage rebate, if the provider materialized it.
    pub fn storage_rebate(&self) -> (r: Option<u64>)
        ensures
            r == self.storage_rebate,
    {
        self.storage_rebate
    }

    /// The raw serialized state, if the provider materialized it.
    pub fn bcs(&self) -> (r: Option<Base64>)
        ensures
            opt_bytes_view(r) == opt_bytes_view(self.bcs),
    {
        match &self.bcs {
            Some(b) => Some(b.duplicate()),
            None => None,
        }
    }

    /// The ownership discriminant.
    pub fn kind(&self) -> (r: Option<ObjectKind>)
        ensures
            r == self.kind,
    {
        self.kind
    }

    /// The nominal owner, wrapped as an owner-capable value; `None` when no
    /// owner address is set. For a shared or immutable object the value is
    /// nominal only and grants no mutation authority (see
    /// [`mutation_authority`]).
    pub fn owner(&self) -> (r: Option<Owner>)
        ensures
            match self.owner {
                Some(a) => r == Some(Owner { address: a }),
                None => r is None,
            },
    {
        match &self.owner {
            Some(a) => Some(Owner { address: *a }),
            None => None,
        }
    }

    /// The owner address that may mutate this object: `None` for a shared or
    /// immutable object, the nominal owner otherwise.
    pub fn authoritative_owner(&self) -> (r: Option<Owner>)
        ensures
            match r {
                Some(o) => mutation_authority(self@) == Some(o.address@),
                None => mutation_authority(self@) is None,
            },
    {
        let nominal = match self.kind {
            Some(ObjectKind::Shared) => None,
            Some(ObjectKind::Immutable) => None,
            _ => self.owner,
        };
        match nominal {
            Some(a) => Some(Owner { address: a }),
            None => None,
        }
    }

    /// Copies the object, field for field.
    pub fn duplicate(&self) -> (r: Object)
        ensures
            r@ == self@,
    {
        let r = Object {
            address: self.address,
            version: self.version,
            digest: self.digest.clone(),
            storage_rebate: self.storage_rebate,
            owner: self.owner,
            bcs: match &self.bcs {
                Some(b) => Some(b.duplicate()),
                None => None,
            },
            previous_transaction: match &self.previous_transaction {
                Some(s) => Some(s.clone()),
                None => None,
            },
            kind: self.kind,
        };
        proof {
            assert(r@ =~= self@);
        }
        r
    }

    /// Resolves the transaction that produced this version. Succeeds with
    /// `None`, without consulting the provider, when `previous_transaction`
    /// is absent; otherwise asks the provider to resolve the digest and
    /// propagates its answer, or its error, unchanged.
    pub fn previous_transaction_block<P: DataProvider>(&self, provider: &P) -> (r: Result<
        Option<TransactionBlock>,
        Error,
    >)
        ensures
            self.previous_transaction is None ==> (r matches Ok(t) && t is None),
            self.previous_transaction matches Some(d) ==> match r {
                Ok(t) => tx_result_matches(provider.txs(), d@, t),
                Err(e) => e == Error::Provider,
            },
    {
        match &self.previous_transaction {
            Some(d) => provider.fetch_tx(d),
            None => Ok(None),
        }
    }

    /// The owning address of this object, in its role as an owner.
    pub fn location(&self) -> (r: SuiAddress)
        ensures
            r == self.address,
    {
        self.address
    }

    /// Paginated listing of the objects this object owns, refined by
    /// `filter`; see [`owned_object_connection`].
    pub fn object_connection<P: DataProvider>(
        &self,
        provider: &P,
        first: Option<u64>,
        after: Option<String>,
        last: Option<u64>,
        before: Option<String>,
        filter: Option<ObjectFilter>,
    ) -> (r: Result<Connection<Object>, Error>)
        ensures
            owned_connection_post(
                provider.objects(),
                self.address@,
                first,
                cursor_view(after),
                last,
                cursor_view(before),
                filter_view(filter),
                r,
            ),
    {
        owned_object_connection(provider, &self.address, first, after, last, before, filter)
    }

    /// The aggregate balance this object controls; see [`owner_balance`].
    pub fn balance<P: DataProvider>(&self, provider: &P, type_: Option<String>) -> (r: Result<
        Balance,
        Error,
    >)
        ensures
            r matches Ok(b) ==> balance_lookup(provider.balances(), self.address@, opt_text_view(type_))
                == Some(b@),
    {
        owner_balance(provider, &self.address, type_)
    }

    /// Balances per coin type are intentionally not backed by data yet.
    pub fn balance_connection(
        &self,
        _first: Option<u64>,
        _after: Option<String>,
        _last: Option<u64>,
        _before: Option<String>,
    ) -> (r: Result<Connection<Balance>, Error>)
        ensures
            r == Err::<Connection<Balance>, Error>(Error::Unsupported),
    {
        Err(Error::Unsupported)
    }

    /// Coin listings are intentionally not backed by data yet.
    pub fn coin_connection(
        &self,
        _first: Option<u64>,
        _after: Option<String>,
        _last: Option<u64>,
        _before: Option<String>,
        _type_: Option<String>,
    ) -> (r: Result<Connection<Coin>, Error>)
        ensures
            r == Err::<Connection<Coin>, Error>(Error::Unsupported),
    {
        Err(Error::Unsupported)
    }

    /// Stake listings are intentionally not backed by data yet.
    pub fn stake_connection(
        &self,
        _first: Option<u64>,
        _after: Option<String>,
        _last: Option<u64>,
        _before: Option<String>,
    ) -> (r: Result<Connection<Stake>, Error>)
        ensures
            r == Err::<Connection<Stake>, Error>(Error::Unsupported),
    {
        Err(Error::Unsupported)
    }

    /// Default name-service names are intentionally not backed by data yet.
    pub fn default_name_service_name(&self) -> (r: Result<Option<String>, Error>)
        ensures
            r == Err::<Option<String>, Error>(Error::Unsupported),
    {
        Err(Error::Unsupported)
    }

    /// Name-service listings are intentionally not backed by data yet.
    pub fn name_service_connection(
        &self,
        _first: Option<u64>,
        _after: Option<String>,
        _last: Option<u64>,
        _before: Option<String>,
    ) -> (r: Result<Connection<NameService>, Error>)
        ensures
            r == Err::<Connection<NameService>, Error>(Error::Unsupported),
    {
        Err(Error::Unsupported)
    }
}

/// Identifies a specific historical version of an object.
#[derive(Clone, Copy, Debug, PartialEq, Eq)]
pub struct ObjectKey {
    pub object_id: SuiAddress,
    pub version: u64,
}

impl View for ObjectKey {
    type V = (Seq<u8>, u64);

    open spec fn view(&self) -> (Seq<u8>, u64) {
        (self.object_id@, self.version)
    }
}

/// Mathematical model of an object filter.
#[verifier::ext_equal]
pub struct ObjectFilterView {
    pub package: Option<Seq<u8>>,
    pub module: Option<Seq<char>>,
    pub ty: Option<Seq<char>>,
    pub owner: Option<Seq<u8>>,
    pub object_ids: Option<Seq<Seq<u8>>>,
    pub object_keys: Option<Seq<(Seq<u8>, u64)>>,
}

/// A conjunction of optional predicates narrowing a collection query. An
/// empty filter matches everything reachable by the surrounding query.
/// Explicit `object_ids`/`object_keys` lists take precedence as the
/// candidate set before the other predicates are applied as refinement.
#[derive(Clone, Debug, PartialEq, Eq)]
pub struct ObjectFilter {
    pub package: Option<SuiAddress>,
    pub module: Option<String>,
    pub ty: Option<String>,
    pub owner: Option<SuiAddress>,
    pub object_ids: Option<Vec<SuiAddress>>,
    pub object_keys: Option<Vec<ObjectKey>>,
}

impl View for ObjectFilter {
    type V = ObjectFilterView;

    open spec fn view(&self) -> ObjectFilterView {
        ObjectFilterView {
            package: opt_addr_view(self.package),
            module: opt_text_view(self.module),
            ty: opt_text_view(self.ty),
            owner: opt_addr_view(self.owner),
            object_ids: match self.object_ids {
                Some(ids) => Some(ids@.map_values(|a: SuiAddress| a@)),
                None => None,
            },
            object_keys: match self.object_keys {
                Some(ks) => Some(ks@.map_values(|k: ObjectKey| k@)),
                None => None,
            },
        }
    }
}

/// The view of an optional filter argument.
pub open spec fn filter_view(f: Option<ObjectFilter>) -> Option<ObjectFilterView> {
    match f {
        Option::Some(x) => Option::Some(x@),
        Option::None => Option::None,
    }
}

/// The object is in the candidate set named by the explicit id/key lists.
pub open spec fn filter_candidate(f: ObjectFilterView, o: ObjectView) -> bool {
    ||| (f.object_ids matches Some(ids) && ids.contains(o.address))
    ||| (f.object_keys matches Some(ks) && ks.contains((o.address, o.version)))
}

/// The filter's id/key and owner predicates hold of the object. The type
/// predicates (`package`, `module`, `ty`) read metadata this model does not
/// carry; a provider that cannot evaluate them must reject the filter rather
/// than guess (see [`filter_type_free`]).
pub open spec fn filter_matches(f: ObjectFilterView, o: ObjectView) -> bool {
    &&& ((f.object_ids is Some || f.object_keys is Some) ==> filter_candidate(f, o))
    &&& (f.owner matches Some(a) ==> o.owner == Some(a))
}

/// No type predicate is present.
pub open spec fn filter_type_free(f: ObjectFilterView) -> bool {
    f.package is None && f.module is None && f.ty is None
}

impl ObjectFilter {
    /// Whether the id/key and owner predicates select this object.
    pub fn matches_object(&self, o: &Object) -> (r: bool)
        ensures
            r == filter_matches(self@, o@),
    {
        if self.object_ids.is_some() || self.object_keys.is_some() {
            let mut candidate = false;
            if let Some(ids) = &self.object_ids {
                let ghost idsv = ids@.map_values(|a: SuiAddress| a@);
                let mut i: usize = 0;
                while i < ids.len() && !candidate
                    invariant
                        i <= ids@.len(),
                        idsv == ids@.map_values(|a: SuiAddress| a@),
                        idsv.len() == ids@.len(),
                        candidate ==> idsv.contains(o.address@),
                        !candidate ==> forall|j: int| 0 <= j < i ==> idsv[j] != o.address@,
                    decreases ids@.len() - i,
                {
                    if ids[i].eq_address(&o.address) {
                        proof {
                            assert(idsv[i as int] == o.address@);
                        }
                        candidate = true;
                    }
                    i += 1;
                }
                proof {
                    if !candidate {
                        assert(forall|j: int| 0 <= j < idsv.len() ==> idsv[j] != o.address@);
                        assert(!idsv.contains(o.address@));
                    }
                }
            }
            if !candidate {
                if let Some(ks) = &self.object_keys {
                    let ghost ksv = ks@.map_values(|k: ObjectKey| k@);
                    let mut i: usize = 0;
                    while i < ks.len() && !candidate
                        invariant
                            i <= ks@.len(),
                            ksv == ks@.map_values(|k: ObjectKey| k@),
                            ksv.len() == ks@.len(),
                            candidate ==> ksv.contains((o.address@, o.version)),
                            !candidate ==> forall|j: int|
                                0 <= j < i ==> ksv[j] != (o.address@, o.version),
                        decreases ks@.len() - i,
                    {
                        if ks[i].object_id.eq_address(&o.address) && ks[i].version == o.version {
                            proof {
                                assert(ksv[i as int] == (o.address@, o.version));
                            }
                            candidate = true;
                        }
                        i += 1;
                    }
                    proof {
                        if !candidate {
                            assert(forall|j: int|
                                0 <= j < ksv.len() ==> ksv[j] != (o.address@, o.version));
                            assert(!ksv.contains((o.address@, o.version)));
                        }
                    }
                }
            }
            if !candidate {
                return false;
            }
        }
        match &self.owner {
            Some(a) => match &o.owner {
                Some(b) => a.eq_address(b),
                None => false,
            },
            None => true,
        }
    }
}

} // verus!
