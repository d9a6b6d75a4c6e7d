use pgx::host::Host;
use pgx::list::{List, ListCell};
use pgx::pgptr::PgPtr;

fn int_list(host: &mut Host, values: &[i32]) -> PgPtr<List> {
    let mut list = PgPtr::<List>::new::<i32>();
    for v in values {
        list.push_i32(host, *v);
    }
    list
}

#[test]
fn null_list_is_empty() {
    let host = Host::new();
    let list = PgPtr::<List>::new::<i32>();
    assert_eq!(list.len(&host), 0);
    assert!(list.is_empty(&host));
    assert_eq!(list.get_i32(&host, 0), None);
    assert_eq!(list.head_i32(&host), None);
    assert_eq!(list.tail_i32(&host), None);
}

#[test]
fn push_then_pop_round_trip() {
    let mut host = Host::new();
    let mut list = int_list(&mut host, &[5, 6]);
    list.push_i32(&mut host, 42);
    assert_eq!(list.len(&host), 3);
    assert_eq!(list.pop_i32(&mut host), Some(42));
    assert_eq!(list.len(&host), 2);
    assert_eq!(list.tail_i32(&host), Some(6));
}

#[test]
fn pop_on_null_list_gives_none() {
    let mut host = Host::new();
    let mut list = PgPtr::<List>::new::<i32>();
    assert_eq!(list.pop_i32(&mut host), None);
    assert!(list.is_null());
    assert_eq!(list.len(&host), 0);
    assert_eq!(list.pop_oid(&mut host), None);
    assert!(list.pop_ptr::<u8>(&mut host).is_none());
    assert!(list.is_null());
    assert!(host.lists.slots.is_empty());
}

#[test]
fn pop_decreases_length_by_one_until_empty() {
    let mut host = Host::new();
    let mut list = int_list(&mut host, &[1, 2, 3]);
    assert_eq!(list.pop_i32(&mut host), Some(3));
    assert_eq!(list.len(&host), 2);
    assert_eq!(list.pop_i32(&mut host), Some(2));
    assert_eq!(list.len(&host), 1);
    assert_eq!(list.pop_i32(&mut host), Some(1));
    assert_eq!(list.len(&host), 0);
    assert!(list.is_null());
    assert_eq!(list.pop_i32(&mut host), None);
}

#[test]
fn first_push_creates_the_list() {
    let mut host = Host::new();
    let mut list = PgPtr::<List>::new::<i32>();
    list.push_i32(&mut host, 9);
    assert!(!list.is_null());
    assert_eq!(host.lists.slots.len(), 1);
    assert_eq!(host.lists.slots[0].cells, vec![ListCell::Int(9)]);
}

#[test]
fn iteration_yields_values_in_order_and_restarts() {
    let mut host = Host::new();
    let list = int_list(&mut host, &[1, 2, 3]);
    let mut it = list.iter_int();
    assert_eq!(it.next(&host), Some(1));
    assert_eq!(it.next(&host), Some(2));
    assert_eq!(it.next(&host), Some(3));
    assert_eq!(it.next(&host), None);
    assert_eq!(it.next(&host), None);
    assert_eq!(list.iter_int().collect(&host), vec![1, 2, 3]);
    assert_eq!(list.iter_int().collect(&host), vec![1, 2, 3]);
}

#[test]
fn get_is_bounds_checked() {
    let mut host = Host::new();
    let list = int_list(&mut host, &[10, 20]);
    assert_eq!(list.get_i32(&host, 0), Some(10));
    assert_eq!(list.get_i32(&host, 1), Some(20));
    assert_eq!(list.get_i32(&host, 2), None);
    assert_eq!(list.get_i32(&host, -1), None);
    assert_eq!(list.head_i32(&host), Some(10));
    assert_eq!(list.tail_i32(&host), Some(20));
}

#[test]
fn replace_returns_the_previous_value() {
    let mut host = Host::new();
    let mut list = int_list(&mut host, &[10, 20]);
    assert_eq!(list.replace_i32(&mut host, 1, 99), Some(20));
    assert_eq!(list.get_i32(&host, 1), Some(99));
    assert_eq!(list.replace_i32(&mut host, 2, 5), None);
    assert_eq!(list.iter_int().collect(&host), vec![10, 99]);
}

#[test]
fn oid_lists() {
    let mut host = Host::new();
    let mut list = PgPtr::<List>::new::<u32>();
    list.push_oid(&mut host, 1259);
    list.push_oid(&mut host, 2615);
    assert_eq!(list.head_oid(&host), Some(1259));
    assert_eq!(list.tail_oid(&host), Some(2615));
    assert_eq!(list.replace_oid(&mut host, 0, 16384), Some(1259));
    assert_eq!(list.iter_oid().collect(&host), vec![16384, 2615]);
    assert_eq!(list.pop_oid(&mut host), Some(2615));
    assert_eq!(list.get_oid(&host, 0), Some(16384));
    let mut it = list.iter_oid();
    assert_eq!(it.next(&host), Some(16384));
    assert_eq!(it.next(&host), None);
}

#[test]
fn pointer_lists() {
    let mut host = Host::new();
    let mut list = PgPtr::<List>::new::<u8>();
    let a: PgPtr<u8> = PgPtr::from_raw(100);
    let b: PgPtr<u8> = PgPtr::from_raw(200);
    list.push_ptr(&mut host, a);
    list.push_ptr(&mut host, b);
    assert_eq!(list.head_ptr::<u8>(&host).map(|p| p.as_ptr()), Some(100));
    assert_eq!(list.tail_ptr::<u8>(&host).map(|p| p.as_ptr()), Some(200));
    assert_eq!(list.get_ptr::<u8>(&host, 1).map(|p| p.as_ptr()), Some(200));
    let c: PgPtr<u8> = PgPtr::from_raw(300);
    assert_eq!(list.replace_ptr(&mut host, 0, c).map(|p| p.as_ptr()), Some(100));
    let mut it = list.iter_ptr::<u8>();
    assert_eq!(it.next(&host).map(|p| p.as_ptr()), Some(300));
    assert_eq!(it.next(&host).map(|p| p.as_ptr()), Some(200));
    assert!(it.next(&host).is_none());
    assert_eq!(list.pop_ptr::<u8>(&mut host).map(|p| p.as_ptr()), Some(200));
    assert_eq!(list.len(&host), 1);
}

#[test]
fn other_lists_are_untouched() {
    let mut host = Host::new();
    let mut a = int_list(&mut host, &[1]);
    let b = int_list(&mut host, &[7, 8]);
    a.push_i32(&mut host, 2);
    a.pop_i32(&mut host);
    a.pop_i32(&mut host);
    assert_eq!(b.iter_int().collect(&host), vec![7, 8]);
}
