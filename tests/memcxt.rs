use pgx::host::{Host, CACHE_MEMORY_CONTEXT, MESSAGE_CONTEXT, TOP_MEMORY_CONTEXT, TOP_TRANSACTION_CONTEXT};
use pgx::memcxt::{HostError, PgMemoryContexts};
use pgx::pgptr::PgPtr;

#[test]
fn well_known_contexts_resolve() {
    let host = Host::new();
    assert_eq!(PgMemoryContexts::CurrentMemoryContext.value(&host).as_ptr(), TOP_MEMORY_CONTEXT);
    assert_eq!(PgMemoryContexts::TopMemoryContext.value(&host).as_ptr(), TOP_MEMORY_CONTEXT);
    assert_eq!(PgMemoryContexts::PortalContext.value(&host).as_ptr(), 2);
    assert_eq!(PgMemoryContexts::ErrorContext.value(&host).as_ptr(), 3);
    assert_eq!(PgMemoryContexts::PostmasterContext.value(&host).as_ptr(), 4);
    assert_eq!(PgMemoryContexts::CacheMemoryContext.value(&host).as_ptr(), CACHE_MEMORY_CONTEXT);
    assert_eq!(PgMemoryContexts::MessageContext.value(&host).as_ptr(), MESSAGE_CONTEXT);
    assert_eq!(PgMemoryContexts::TopTransactionContext.value(&host).as_ptr(), TOP_TRANSACTION_CONTEXT);
    assert_eq!(PgMemoryContexts::CurTransactionContext.value(&host).as_ptr(), 8);
    assert_eq!(PgMemoryContexts::For(PgPtr::from_raw(5)).value(&host).as_ptr(), 5);
}

#[test]
fn of_resolves_to_the_owning_context() {
    let mut host = Host::new();
    let _ = PgMemoryContexts::CacheMemoryContext.set_as_current(&mut host);
    let p: PgPtr<u32> = PgPtr::allocate(&mut host);
    assert_eq!(PgMemoryContexts::Of(p.as_ptr()).value(&host).as_ptr(), CACHE_MEMORY_CONTEXT);
}

#[test]
fn set_as_current_returns_the_previous_context() {
    let mut host = Host::new();
    let previous = PgMemoryContexts::MessageContext.set_as_current(&mut host);
    assert_eq!(host.current_memory_context.as_ptr(), MESSAGE_CONTEXT);
    match previous {
        PgMemoryContexts::For(c) => assert_eq!(c.as_ptr(), TOP_MEMORY_CONTEXT),
        _ => panic!("expected a For selector"),
    }
    let _ = previous.set_as_current(&mut host);
    assert_eq!(host.current_memory_context.as_ptr(), TOP_MEMORY_CONTEXT);
}

#[test]
fn switch_to_restores_after_normal_return() {
    let host = Host::new();
    let before = host.current_memory_context.as_ptr();
    let (host, result) = PgMemoryContexts::TopTransactionContext.switch_to(host, |h: Host, c: PgMemoryContexts| {
        let mut h = h;
        let inside = h.current_memory_context.as_ptr();
        let p: PgPtr<u64> = PgPtr::allocate(&mut h);
        let named = match c {
            PgMemoryContexts::For(x) => x.as_ptr(),
            _ => 0,
        };
        (h, Ok::<(usize, usize, usize), HostError>((inside, named, p.as_ptr())))
    });
    assert_eq!(host.current_memory_context.as_ptr(), before);
    assert_eq!(result, Ok((TOP_TRANSACTION_CONTEXT, TOP_TRANSACTION_CONTEXT, 1)));
    assert_eq!(host.chunks.slots[0].context.as_ptr(), TOP_TRANSACTION_CONTEXT);
}

#[test]
fn switch_to_restores_after_a_fault() {
    let mut host = Host::new();
    let _ = PgMemoryContexts::MessageContext.set_as_current(&mut host);
    let (host, result) = PgMemoryContexts::CacheMemoryContext.switch_to(host, |h: Host, _c: PgMemoryContexts| {
        let mut h = h;
        let _ = PgMemoryContexts::ErrorContext.set_as_current(&mut h);
        (h, Err::<i32, HostError>(HostError { message: "division by zero".to_string() }))
    });
    assert_eq!(host.current_memory_context.as_ptr(), MESSAGE_CONTEXT);
    assert_eq!(result, Err(HostError { message: "division by zero".to_string() }));
}

#[test]
fn transient_context_is_created_and_deleted() {
    let host = Host::new();
    let selector = PgMemoryContexts::Transient {
        parent: PgPtr::from_raw(TOP_MEMORY_CONTEXT),
        name: "scratch".to_string(),
        min_context_size: 1024,
        initial_block_size: 4096,
        max_block_size: 65536,
    };
    let (host, result) = selector.switch_to(host, |h: Host, _c: PgMemoryContexts| {
        let mut h = h;
        let inside = h.current_memory_context.as_ptr();
        let deleted = h.contexts.slots[inside - 1].deleted;
        let _p: PgPtr<u8> = PgPtr::allocate(&mut h);
        (h, Ok::<(usize, bool), HostError>((inside, deleted)))
    });
    assert_eq!(result, Ok((9, false)));
    assert_eq!(host.contexts.slots.len(), 9);
    assert!(host.contexts.slots[8].deleted);
    assert_eq!(host.contexts.slots[8].name, "scratch");
    assert_eq!(host.contexts.slots[8].parent, TOP_MEMORY_CONTEXT);
    assert_eq!(host.contexts.slots[8].min_context_size, 1024);
    assert_eq!(host.contexts.slots[8].initial_block_size, 4096);
    assert_eq!(host.contexts.slots[8].max_block_size, 65536);
    assert_eq!(host.current_memory_context.as_ptr(), TOP_MEMORY_CONTEXT);
}

#[test]
fn nested_switches_unwind_in_order() {
    let host = Host::new();
    let (host, result) = PgMemoryContexts::MessageContext.switch_to(host, |h: Host, _c: PgMemoryContexts| {
        let (h, inner) = PgMemoryContexts::CacheMemoryContext.switch_to(h, |h2: Host, _c2: PgMemoryContexts| {
            let now = h2.current_memory_context.as_ptr();
            (h2, Ok::<usize, HostError>(now))
        });
        let after_inner = h.current_memory_context.as_ptr();
        (h, inner.map(|i| (i, after_inner)))
    });
    assert_eq!(result, Ok((CACHE_MEMORY_CONTEXT, MESSAGE_CONTEXT)));
    assert_eq!(host.current_memory_context.as_ptr(), TOP_MEMORY_CONTEXT);
}

#[test]
fn owned_context_is_a_child_of_the_current_one() {
    let mut host = Host::new();
    let _ = PgMemoryContexts::MessageContext.set_as_current(&mut host);
    let owned = PgMemoryContexts::new("mine", &mut host);
    assert_eq!(owned.value(&host).as_ptr(), 9);
    assert_eq!(host.contexts.slots[8].parent, MESSAGE_CONTEXT);
    assert_eq!(host.contexts.slots[8].name, "mine");
    assert_eq!(host.contexts.slots[8].initial_block_size, 8192);
    assert_eq!(host.contexts.slots[8].max_block_size, 8388608);
    match owned {
        PgMemoryContexts::Owned(o) => {
            o.delete(&mut host);
            assert!(host.contexts.slots[8].deleted);
        }
        _ => panic!("expected an owned context"),
    }
}

#[test]
fn reset_frees_only_that_contexts_allocations() {
    let mut host = Host::new();
    let _a: PgPtr<u8> = PgPtr::allocate(&mut host);
    let _ = PgMemoryContexts::MessageContext.set_as_current(&mut host);
    let _b: PgPtr<u8> = PgPtr::allocate(&mut host);
    let mut top = PgMemoryContexts::TopMemoryContext;
    top.reset(&mut host);
    assert!(host.chunks.slots[0].freed);
    assert!(!host.chunks.slots[1].freed);
    assert_eq!(host.current_memory_context.as_ptr(), MESSAGE_CONTEXT);
}

#[test]
fn pstrdup_and_copy_allocate_in_the_named_context() {
    let mut host = Host::new();
    let s = PgMemoryContexts::CacheMemoryContext.pstrdup(&mut host, "make a copy of this");
    assert_eq!(s.as_ptr(), 1);
    assert_eq!(host.chunks.slots[0].size, 20);
    assert_eq!(host.chunks.slots[0].context.as_ptr(), CACHE_MEMORY_CONTEXT);
    let mut expected = b"make a copy of this".to_vec();
    expected.push(0);
    assert_eq!(host.chunks.slots[0].contents, Some(expected));
    let mut msg = PgMemoryContexts::MessageContext;
    let src: PgPtr<u64> = PgPtr::from_raw(1);
    let copy = msg.copy_ptr_into(&mut host, src, 8);
    assert_eq!(copy.as_ptr(), 2);
    assert_eq!(host.chunks.slots[1].size, 8);
    assert_eq!(host.chunks.slots[1].context.as_ptr(), MESSAGE_CONTEXT);
    assert_eq!(host.chunks.slots[1].contents, Some(b"make a c".to_vec()));
    assert_eq!(host.chunks.slots[0].contents.as_ref().map(|b| b.len()), Some(20));
    assert_eq!(host.current_memory_context.as_ptr(), TOP_MEMORY_CONTEXT);
}
