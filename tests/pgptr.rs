use pgx::host::{Host, TOP_MEMORY_CONTEXT, MESSAGE_CONTEXT};
use pgx::memcxt::PgMemoryContexts;
use pgx::pgptr::{palloc, palloc0, Memory, PgPtr};

#[test]
fn null_handle() {
    let p: PgPtr<u64> = PgPtr::null_mut();
    assert!(p.is_null());
    assert_eq!(p.as_ptr(), 0);
    let q: PgPtr<u64> = PgPtr::from_raw(16);
    assert!(!q.is_null());
}

#[test]
fn handles_compare_by_address() {
    let a: PgPtr<u32> = PgPtr::from_raw(7);
    let b = a;
    let c: PgPtr<u32> = PgPtr::from(7);
    let d: PgPtr<u32> = PgPtr::from_raw(8);
    assert!(a == b);
    assert!(a == c);
    assert!(a != d);
    let e: PgPtr<u8> = a.cast();
    assert_eq!(e.as_ptr(), 7);
}

#[test]
fn allocate_sizes_the_struct_in_the_current_context() {
    let mut host = Host::new();
    let p: PgPtr<[u64; 3]> = PgPtr::allocate(&mut host);
    assert_eq!(p.as_ptr(), 1);
    let chunk = &host.chunks.slots[0];
    assert_eq!(chunk.size, 24);
    assert!(chunk.contents.is_none());
    assert_eq!(chunk.context.as_ptr(), TOP_MEMORY_CONTEXT);

    let _ = PgMemoryContexts::MessageContext.set_as_current(&mut host);
    let q: PgPtr<[u64; 3]> = PgPtr::allocate_zeroed(&mut host);
    assert_eq!(q.as_ptr(), 2);
    let chunk = &host.chunks.slots[1];
    assert_eq!(chunk.size, 24);
    assert_eq!(chunk.contents, Some(vec![0u8; 24]));
    assert_eq!(chunk.context.as_ptr(), MESSAGE_CONTEXT);
}

#[test]
fn arrays_and_extra_lengths() {
    let mut host = Host::new();
    let _a: PgPtr<u32> = PgPtr::array(&mut host, 5);
    let _b: PgPtr<u32> = PgPtr::array0(&mut host, 0);
    let _c: PgPtr<u16> = PgPtr::with_extra_len(&mut host, 10);
    let _d: PgPtr<u16> = PgPtr::with_extra_len0(&mut host, 1);
    let sizes: Vec<usize> = host.chunks.slots.iter().map(|c| c.size).collect();
    assert_eq!(sizes, vec![20, 0, 12, 3]);
    let contents: Vec<Option<Vec<u8>>> = host.chunks.slots.iter().map(|c| c.contents.clone()).collect();
    assert_eq!(contents, vec![None, Some(vec![]), None, Some(vec![0u8; 3])]);
}

#[test]
fn raw_allocation_primitives() {
    let mut host = Host::new();
    let p: PgPtr<u8> = palloc(&mut host, 100);
    let q: PgPtr<u8> = palloc0(&mut host, 50);
    assert_eq!(p.as_ptr(), 1);
    assert_eq!(q.as_ptr(), 2);
    assert_eq!(host.chunks.slots[1].size, 50);
    assert_eq!(host.chunks.slots[1].contents, Some(vec![0u8; 50]));
    assert!(host.chunks.slots[0].contents.is_none());
}

#[test]
fn free_releases_only_that_allocation() {
    let mut host = Host::new();
    let p: PgPtr<u64> = PgPtr::allocate(&mut host);
    let q: PgPtr<u64> = PgPtr::allocate(&mut host);
    p.free(&mut host);
    assert!(host.chunks.slots[0].freed);
    assert!(!host.chunks.slots[1].freed);
    assert_eq!(q.as_ptr(), 2);
}

#[test]
fn deref_reads_and_writes_the_record() {
    let mut memory: Memory<i64> = Memory::new();
    let a = memory.store(10);
    let b = memory.store(20);
    assert_eq!(*a.deref(&memory), 10);
    *b.deref_mut(&mut memory) = 25;
    assert_eq!(*b.deref(&memory), 25);
    assert_eq!(*a.deref(&memory), 10);
}
