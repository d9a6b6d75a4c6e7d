use pgx::host::Host;
use pgx::pgptr::PgPtr;
use pgx::rel::{PgRelation, RelationCall, ACCESS_SHARE_LOCK};
use pgx::relation_data::{Namespace, RelationData, RELKIND_INDEX, RELKIND_RELATION, RELKIND_VIEW};

fn catalog() -> Host {
    let mut host = Host::new();
    host.relations.store(RelationData {
        rd_id: 16384,
        relname: "users".to_string(),
        relnamespace: 2200,
        relkind: RELKIND_RELATION,
        rd_att: PgPtr::from_raw(101),
        rd_index: None,
    });
    host.relations.store(RelationData {
        rd_id: 16390,
        relname: "users_pkey".to_string(),
        relnamespace: 2200,
        relkind: RELKIND_INDEX,
        rd_att: PgPtr::from_raw(102),
        rd_index: Some(16384),
    });
    host.relations.store(RelationData {
        rd_id: 16400,
        relname: "active_users".to_string(),
        relnamespace: 2200,
        relkind: RELKIND_VIEW,
        rd_att: PgPtr::from_raw(103),
        rd_index: None,
    });
    host.relations.store(RelationData {
        rd_id: 16391,
        relname: "users_email_idx".to_string(),
        relnamespace: 2200,
        relkind: RELKIND_INDEX,
        rd_att: PgPtr::from_raw(104),
        rd_index: Some(16384),
    });
    host.namespaces.push(Namespace { oid: 2200, name: "public".to_string() });
    host
}

#[test]
fn closing_a_locked_handle_releases_the_lock() {
    let mut host = catalog();
    let rel = PgRelation::with_lock(&mut host, 16384, 3).unwrap();
    rel.close(&mut host);
    assert_eq!(
        host.relation_calls,
        vec![
            RelationCall::Open { oid: 16384, lockmode: Some(3) },
            RelationCall::RelationCloseWithLock(1, 3)
        ]
    );
}

#[test]
fn closing_an_unlocked_handle_keeps_the_lock() {
    let mut host = catalog();
    let rel = PgRelation::open(&mut host, 16390);
    rel.close(&mut host);
    assert_eq!(
        host.relation_calls,
        vec![RelationCall::Open { oid: 16390, lockmode: None }, RelationCall::RelationClose(2)]
    );
    let wrapped = PgRelation::from(PgPtr::from_raw(3));
    wrapped.close(&mut host);
    assert_eq!(host.relation_calls[2], RelationCall::RelationClose(3));
}

#[test]
fn closing_a_null_handle_calls_nothing() {
    let mut host = catalog();
    PgRelation::from(PgPtr::null_mut()).close(&mut host);
    assert!(host.relation_calls.is_empty());
}

#[test]
fn with_lock_on_a_missing_relation_is_a_fault() {
    let mut host = catalog();
    assert!(PgRelation::with_lock(&mut host, 99999, ACCESS_SHARE_LOCK).is_err());
    assert!(host.relation_calls.is_empty());
}

#[test]
fn open_by_name() {
    let mut host = catalog();
    let rel = PgRelation::open_with_name(&mut host, "active_users").unwrap();
    assert_eq!(rel.deref().as_ptr(), 3);
    assert_eq!(rel.lockmode, None);
    assert!(PgRelation::open_with_name(&mut host, "nope").err() == Some("no such relation"));
    let shared = PgRelation::open_with_name_and_share_lock(&mut host, "users").unwrap();
    assert_eq!(shared.lockmode, Some(ACCESS_SHARE_LOCK));
    assert_eq!(shared.deref().as_ptr(), 1);
    assert!(PgRelation::open_with_name_and_share_lock(&mut host, "nope").err() == Some("no such relation"));
    assert_eq!(host.relation_calls.len(), 2);
}

#[test]
fn clone_reopens_with_a_share_lock() {
    let mut host = catalog();
    let rel = PgRelation::open(&mut host, 16400);
    let copy = rel.clone(&mut host).unwrap();
    assert_eq!(copy.lockmode, Some(ACCESS_SHARE_LOCK));
    assert_eq!(copy.deref().as_ptr(), 3);
    assert_eq!(host.relation_calls[1], RelationCall::Open { oid: 16400, lockmode: Some(ACCESS_SHARE_LOCK) });
}

#[test]
fn datum_round_trip() {
    let mut host = catalog();
    assert!(matches!(PgRelation::from_datum(&mut host, 0, true, 2205), Ok(None)));
    let rel = PgRelation::from_datum(&mut host, 16390, false, 2205).unwrap().unwrap();
    assert_eq!(rel.deref().as_ptr(), 2);
    assert_eq!(rel.lockmode, Some(ACCESS_SHARE_LOCK));
    assert_eq!(
        host.relation_calls,
        vec![RelationCall::Open { oid: 16390, lockmode: Some(ACCESS_SHARE_LOCK) }]
    );
    assert!(PgRelation::from_datum(&mut host, 5, false, 2205).is_err());
    assert_eq!(host.relation_calls.len(), 1);
    assert_eq!(rel.into_datum(&mut host), Some(16390));
    assert_eq!(host.relation_calls.last(), Some(&RelationCall::RelationCloseWithLock(2, ACCESS_SHARE_LOCK)));
    assert_eq!(PgRelation::type_oid(), 2205);
}

#[test]
fn heap_relation_of_an_index() {
    let mut host = catalog();
    let index = PgRelation::open(&mut host, 16390);
    assert_eq!(index.heap_relation(&mut host).map(|p| p.as_ptr()), Some(1));
    let table = PgRelation::open(&mut host, 16384);
    assert!(table.heap_relation(&mut host).is_none());
}

#[test]
fn indices_of_a_table() {
    let mut host = catalog();
    let table = PgRelation::open(&mut host, 16384);
    let indexes = table.indices(&mut host, ACCESS_SHARE_LOCK);
    let addrs: Vec<usize> = indexes.iter().map(|r| r.deref().as_ptr()).collect();
    assert_eq!(addrs, vec![2, 4]);
    assert!(indexes.iter().all(|r| r.lockmode == Some(ACCESS_SHARE_LOCK)));
}

#[test]
fn relation_descriptor_accessors() {
    let host = catalog();
    let users: PgPtr<RelationData> = PgPtr::from_raw(1);
    assert_eq!(users.name(&host), "users");
    assert_eq!(users.oid(&host), 16384);
    assert_eq!(users.namespace_oid(&host), 2200);
    assert_eq!(users.namespace(&host), Some("public"));
    assert!(users.is_table(&host));
    assert_eq!(users.tupdesc(&host).as_ptr(), 101);
    assert!(!users.is_index(&host));
    let pkey: PgPtr<RelationData> = PgPtr::from_raw(2);
    assert!(pkey.is_index(&host));
    let view: PgPtr<RelationData> = PgPtr::from_raw(3);
    assert!(view.is_view(&host));
    assert!(!view.is_matview(&host));
    assert!(!view.is_sequence(&host));
    assert!(!view.is_composite_type(&host));
    assert!(!view.is_foreign_table(&host));
    assert!(!view.is_partitioned_table(&host));
    assert!(!view.is_toast_value(&host));
}

#[test]
fn missing_namespace_is_absent() {
    let mut host = catalog();
    host.namespaces.clear();
    let users: PgPtr<RelationData> = PgPtr::from_raw(1);
    assert_eq!(users.namespace(&host), None);
}

#[test]
fn name_data_as_text() {
    let name = pgx::relation_data::NameData { data: b"pg_class".to_vec() };
    assert_eq!(name.as_str(), "pg_class");
    let accented = pgx::relation_data::NameData { data: "café".as_bytes().to_vec() };
    assert_eq!(accented.as_str(), "café");
}
