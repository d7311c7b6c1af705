use object_resolution::balance::Balance;
use object_resolution::base64::Base64;
use object_resolution::connection::Edge;
use object_resolution::error::Error;
use object_resolution::object::{Object, ObjectFilter, ObjectKey, ObjectKind};
use object_resolution::provider::{BalanceRecord, MemoryProvider};
use object_resolution::sui_address::SuiAddress;
use object_resolution::transaction_block::TransactionBlock;

fn addr(last: u8) -> SuiAddress {
    let mut bytes = [0u8; 32];
    bytes[31] = last;
    SuiAddress::new(bytes)
}

fn object(id: u8, version: u64, digest: &str, owner: Option<u8>) -> Object {
    Object {
        address: addr(id),
        version,
        digest: String::from(digest),
        storage_rebate: None,
        owner: owner.map(addr),
        bcs: None,
        previous_transaction: None,
        kind: Some(ObjectKind::Owned),
    }
}

fn empty_filter() -> ObjectFilter {
    ObjectFilter {
        package: None,
        module: None,
        ty: None,
        owner: None,
        object_ids: None,
        object_keys: None,
    }
}

fn store_for_bb() -> MemoryProvider {
    MemoryProvider {
        objects: vec![
            Edge { cursor: String::from("c1"), node: object(0x01, 1, "d1", Some(0xBB)) },
            Edge { cursor: String::from("c2"), node: object(0x02, 2, "d2", Some(0xCC)) },
            Edge { cursor: String::from("c3"), node: object(0x03, 3, "d3", Some(0xBB)) },
        ],
        transactions: vec![],
        pruned: vec![],
        balances: vec![],
    }
}

#[test]
fn getters_project_materialized_fields() {
    let mut o = object(0xAA, 3, "d3", Some(0xBB));
    o.storage_rebate = Some(7);
    o.bcs = Some(Base64::new(vec![1, 2, 3]));
    o.previous_transaction = Some(String::from("t2"));
    assert_eq!(o.version(), 3);
    assert_eq!(o.digest(), "d3".to_string());
    assert_eq!(o.storage_rebate(), Some(7));
    assert_eq!(o.bcs(), Some(Base64::new(vec![1, 2, 3])));
    assert_eq!(o.kind(), Some(ObjectKind::Owned));
    assert_eq!(o.location(), addr(0xAA));
}

#[test]
fn owner_wraps_stored_address() {
    let o = object(0xAA, 3, "d3", Some(0xBB));
    let w = o.owner().unwrap();
    assert_eq!(w.location(), addr(0xBB));
}

#[test]
fn owner_absent_when_no_address_set() {
    let o = object(0xAA, 3, "d3", None);
    assert!(o.owner().is_none());
}

#[test]
fn shared_and_immutable_grant_no_mutation_authority() {
    let mut o = object(0xAA, 3, "d3", Some(0xBB));
    o.kind = Some(ObjectKind::Shared);
    assert!(o.owner().is_some());
    assert!(o.authoritative_owner().is_none());
    o.kind = Some(ObjectKind::Immutable);
    assert!(o.owner().is_some());
    assert!(o.authoritative_owner().is_none());
    o.kind = Some(ObjectKind::Owned);
    assert_eq!(o.authoritative_owner().unwrap().location(), addr(0xBB));
}

#[test]
fn kind_serializes_as_literal_tags() {
    assert_eq!(ObjectKind::Owned.tag(), "OWNED");
    assert_eq!(ObjectKind::Child.tag(), "CHILD");
    assert_eq!(ObjectKind::Shared.tag(), "SHARED");
    assert_eq!(ObjectKind::Immutable.tag(), "IMMUTABLE");
}

#[test]
fn address_equality_is_byte_wise() {
    assert!(addr(0xBB).eq_address(&addr(0xBB)));
    assert!(!addr(0xBB).eq_address(&addr(0xBC)));
}

#[test]
fn owner_scenario_returns_provider_page_unchanged() {
    let p = store_for_bb();
    let o = object(0xAA, 3, "d3", Some(0xBB));
    let w = o.owner().unwrap();
    assert_eq!(w.location(), addr(0xBB));
    let page = w.object_connection(&p, Some(10), None, None, None, None).unwrap();
    assert_eq!(page.edges.len(), 2);
    assert_eq!(page.edges[0].cursor, "c1".to_string());
    assert_eq!(page.edges[0].node, object(0x01, 1, "d1", Some(0xBB)));
    assert_eq!(page.edges[1].cursor, "c3".to_string());
    assert_eq!(page.edges[1].node, object(0x03, 3, "d3", Some(0xBB)));
    assert!(!page.has_previous_page);
    assert!(!page.has_next_page);
}

#[test]
fn object_pages_through_what_it_owns() {
    let p = store_for_bb();
    let o = object(0xBB, 9, "d9", None);
    let page = o.object_connection(&p, Some(1), None, None, None, None).unwrap();
    assert_eq!(page.edges.len(), 1);
    assert_eq!(page.edges[0].cursor, "c1".to_string());
    assert!(page.has_next_page);
}

#[test]
fn connection_replay_is_idempotent() {
    let p = store_for_bb();
    let o = object(0xBB, 9, "d9", None);
    let a = o.object_connection(&p, Some(2), Some(String::from("c1")), None, None, None);
    let b = o.object_connection(&p, Some(2), Some(String::from("c1")), None, None, None);
    assert_eq!(a, b);
}

#[test]
fn both_pagination_directions_fail_before_provider() {
    let p = MemoryProvider::new();
    let o = object(0xBB, 9, "d9", None);
    let r = o.object_connection(
        &p,
        Some(1),
        Some(String::from("a")),
        Some(1),
        Some(String::from("b")),
        None,
    );
    assert_eq!(r, Err(Error::InvalidArgument));
    let r = o.object_connection(&p, Some(1), None, Some(1), None, None);
    assert_eq!(r, Err(Error::InvalidArgument));
}

#[test]
fn filter_object_ids_narrow_the_candidates() {
    let p = store_for_bb();
    let o = object(0xBB, 9, "d9", None);
    let mut f = empty_filter();
    f.object_ids = Some(vec![addr(0x03)]);
    let page = o.object_connection(&p, None, None, None, None, Some(f)).unwrap();
    assert_eq!(page.edges.len(), 1);
    assert_eq!(page.edges[0].cursor, "c3".to_string());
}

#[test]
fn filter_object_keys_pin_a_version() {
    let p = store_for_bb();
    let o = object(0xBB, 9, "d9", None);
    let mut f = empty_filter();
    f.object_keys = Some(vec![ObjectKey { object_id: addr(0x01), version: 1 }]);
    let page = o.object_connection(&p, None, None, None, None, Some(f)).unwrap();
    assert_eq!(page.edges.len(), 1);
    assert_eq!(page.edges[0].cursor, "c1".to_string());

    let mut f = empty_filter();
    f.object_keys = Some(vec![ObjectKey { object_id: addr(0x01), version: 2 }]);
    let page = o.object_connection(&p, None, None, None, None, Some(f)).unwrap();
    assert!(page.edges.is_empty());
}

#[test]
fn filter_ids_and_keys_union_as_candidate_set() {
    let p = store_for_bb();
    let o = object(0xBB, 9, "d9", None);
    let mut f = empty_filter();
    f.object_ids = Some(vec![addr(0x01)]);
    f.object_keys = Some(vec![ObjectKey { object_id: addr(0x03), version: 3 }]);
    let page = o.object_connection(&p, None, None, None, None, Some(f)).unwrap();
    assert_eq!(page.edges.len(), 2);
}

#[test]
fn filter_owner_refines_the_candidates() {
    let p = store_for_bb();
    let o = object(0xBB, 9, "d9", None);
    let mut f = empty_filter();
    f.owner = Some(addr(0xDD));
    let page = o.object_connection(&p, None, None, None, None, Some(f)).unwrap();
    assert!(page.edges.is_empty());
    let mut f = empty_filter();
    f.owner = Some(addr(0xBB));
    let page = o.object_connection(&p, None, None, None, None, Some(f)).unwrap();
    assert_eq!(page.edges.len(), 2);
}

#[test]
fn type_filters_are_an_unsupported_combination() {
    let p = store_for_bb();
    let o = object(0xBB, 9, "d9", None);
    let mut f = empty_filter();
    f.ty = Some(String::from("0x2::coin::Coin"));
    let r = o.object_connection(&p, None, None, None, None, Some(f));
    assert_eq!(r, Err(Error::InvalidArgument));
}

#[test]
fn previous_transaction_absent_resolves_to_none() {
    let p = MemoryProvider::new();
    let o = object(0xAA, 3, "d3", Some(0xBB));
    assert_eq!(o.previous_transaction_block(&p), Ok(None));
}

#[test]
fn previous_transaction_resolves_through_provider() {
    let mut p = MemoryProvider::new();
    p.transactions = vec![TransactionBlock::new(String::from("t2"))];
    let mut o = object(0xAA, 3, "d3", Some(0xBB));
    o.previous_transaction = Some(String::from("t2"));
    let t = o.previous_transaction_block(&p).unwrap().unwrap();
    assert_eq!(t.digest(), "t2".to_string());
}

#[test]
fn previous_transaction_unknown_resolves_to_none() {
    let p = MemoryProvider::new();
    let mut o = object(0xAA, 3, "d3", Some(0xBB));
    o.previous_transaction = Some(String::from("t9"));
    assert_eq!(o.previous_transaction_block(&p), Ok(None));
}

#[test]
fn previous_transaction_pruned_is_a_provider_error() {
    let mut p = MemoryProvider::new();
    p.pruned = vec![String::from("t2")];
    let mut o = object(0xAA, 3, "d3", Some(0xBB));
    o.previous_transaction = Some(String::from("t2"));
    assert_eq!(o.previous_transaction_block(&p), Err(Error::Provider));
}

#[test]
fn balance_found_for_owner_and_coin_type() {
    let mut p = MemoryProvider::new();
    p.balances = vec![BalanceRecord {
        owner: addr(0xBB),
        balance: Balance { coin_type: Some(String::from("0x2::sui::SUI")), total: 42 },
    }];
    let o = object(0xBB, 9, "d9", None);
    let b = o.balance(&p, Some(String::from("0x2::sui::SUI"))).unwrap();
    assert_eq!(b.total, 42);
    let w = o.owner();
    assert!(w.is_none());
}

#[test]
fn balance_unrecognized_type_fails() {
    let mut p = MemoryProvider::new();
    p.balances = vec![BalanceRecord {
        owner: addr(0xBB),
        balance: Balance { coin_type: Some(String::from("0x2::sui::SUI")), total: 42 },
    }];
    let o = object(0xBB, 9, "d9", None);
    assert_eq!(o.balance(&p, Some(String::from("0x2::other::OTHER"))), Err(Error::NotFound));
    assert_eq!(o.balance(&p, None), Err(Error::NotFound));
}

#[test]
fn unsupported_connections_yield_typed_errors() {
    let o = object(0xAA, 3, "d3", Some(0xBB));
    assert_eq!(o.balance_connection(None, None, None, None), Err(Error::Unsupported));
    assert_eq!(o.coin_connection(None, None, None, None, None), Err(Error::Unsupported));
    assert_eq!(o.stake_connection(None, None, None, None), Err(Error::Unsupported));
    assert_eq!(o.default_name_service_name(), Err(Error::Unsupported));
    assert_eq!(o.name_service_connection(None, None, None, None), Err(Error::Unsupported));
    let w = o.owner().unwrap();
    assert_eq!(w.balance_connection(None, None, None, None), Err(Error::Unsupported));
    assert_eq!(w.coin_connection(None, None, None, None, None), Err(Error::Unsupported));
    assert_eq!(w.stake_connection(None, None, None, None), Err(Error::Unsupported));
    assert_eq!(w.default_name_service_name(), Err(Error::Unsupported));
    assert_eq!(w.name_service_connection(None, None, None, None), Err(Error::Unsupported));
}

#[test]
fn payload_duplicate_preserves_bytes() {
    let b = Base64::new(vec![9, 8, 7]);
    assert_eq!(b.duplicate(), b);
}
