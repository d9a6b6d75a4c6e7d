//! Selection of the memory context that a block of work allocates in, and
//! scoped execution inside one.
use vstd::prelude::*;
use crate::host::{
    chunk_bytes, Chunk, Host, MemoryContextData, ALLOCSET_DEFAULT_INITSIZE, ALLOCSET_DEFAULT_MAXSIZE,
    ALLOCSET_DEFAULT_MINSIZE,
};
use crate::pgptr::PgPtr;
use vstd::string::StringSliceAdditionalSpecFns;

verus! {

/// A fault that the host raised inside guarded work, caught at the boundary
/// and handed back as a value.
#[derive(Debug, Clone, PartialEq, Eq)]
pub struct HostError {
    pub message: String,
}

/// A memory context created here and owned by its holder, which deletes it.
pub struct OwnedMemoryContext(pub PgPtr<MemoryContextData>);

impl OwnedMemoryContext {
    /// Deletes the context.
    pub fn delete(self, host: &mut Host)
        requires
            old(host).contexts.contains(self.0),
        ensures
            final(host).contexts.slots@ == old(host).contexts.slots@.update(
                self.0.addr - 1,
                MemoryContextData { deleted: true, ..old(host).contexts.at(self.0) },
            ),
            *final(host) == (Host { contexts: final(host).contexts, ..*old(host) }),
            final(host).wf() == old(host).wf(),
    {
        memory_context_delete(host, self.0);
    }
}

fn memory_context_delete(host: &mut Host, context: PgPtr<MemoryContextData>)
    requires
        old(host).contexts.contains(context),
    ensures
        final(host).contexts.slots@ == old(host).contexts.slots@.update(
            context.addr - 1,
            MemoryContextData { deleted: true, ..old(host).contexts.at(context) },
        ),
        *final(host) == (Host { contexts: final(host).contexts, ..*old(host) }),
        final(host).wf() == old(host).wf(),
{
    let data = context.deref_mut(&mut host.contexts);
    data.deleted = true;
}

/// Creates a context under `parent` with the given block sizes.
fn alloc_set_context_create(
    host: &mut Host,
    parent: PgPtr<MemoryContextData>,
    name: String,
    min_context_size: usize,
    initial_block_size: usize,
    max_block_size: usize,
) -> (r: PgPtr<MemoryContextData>)
    requires
        old(host).contexts.slots@.len() < usize::MAX,
    ensures
        r.addr == old(host).contexts.slots@.len() + 1,
        final(host).contexts.slots@ == old(host).contexts.slots@.push(
            MemoryContextData {
                parent: parent.addr,
                name,
                min_context_size,
                initial_block_size,
                max_block_size,
                deleted: false,
            },
        ),
        *final(host) == (Host { contexts: final(host).contexts, ..*old(host) }),
        old(host).wf() ==> final(host).wf(),
{
    host.contexts.store(
        MemoryContextData {
            parent: parent.addr,
            name,
            min_context_size,
            initial_block_size,
            max_block_size,
            deleted: false,
        },
    )
}

/// Which memory context a block of work runs under.
pub enum PgMemoryContexts {
    /// Whatever context is active.
    CurrentMemoryContext,
    /// The top of the tree, never reset.
    TopMemoryContext,
    /// The context of the active portal.
    PortalContext,
    /// The context kept for error recovery.
    ErrorContext,
    /// The postmaster's working context.
    PostmasterContext,
    /// Permanent storage of the caches.
    CacheMemoryContext,
    /// The context of the current command message.
    MessageContext,
    /// Lives until the end of the top-level transaction.
    TopTransactionContext,
    /// Lives until the end of the current (sub)transaction.
    CurTransactionContext,
    /// A context supplied from elsewhere.
    For(PgPtr<MemoryContextData>),
    /// A context created and owned here.
    Owned(OwnedMemoryContext),
    /// The context in which the allocation at this address was made.
    Of(usize),
    /// A context created for one scoped operation and deleted right after it.
    Transient {
        parent: PgPtr<MemoryContextData>,
        name: String,
        min_context_size: u32,
        initial_block_size: u32,
        max_block_size: u32,
    },
}

impl PgMemoryContexts {
    /// Whether the selector can be resolved against the host: the context it
    /// names (or the allocation, or the parent) is there.
    pub open spec fn usable(&self, host: Host) -> bool {
        &&& host.wf()
        &&& match self {
            PgMemoryContexts::For(c) => host.contexts.contains(*c),
            PgMemoryContexts::Owned(o) => host.contexts.contains(o.0),
            PgMemoryContexts::Of(a) => host.chunks.holds(*a) && host.contexts.contains(
                host.chunks.slots@[*a - 1].context,
            ),
            PgMemoryContexts::Transient { parent, .. } => host.contexts.contains(*parent),
            _ => true,
        }
    }

    /// The context the selector names; not defined for a transient one.
    pub open spec fn resolve(&self, host: Host) -> PgPtr<MemoryContextData> {
        match self {
            PgMemoryContexts::CurrentMemoryContext => host.current_memory_context,
            PgMemoryContexts::TopMemoryContext => host.top_memory_context,
            PgMemoryContexts::PortalContext => host.portal_context,
            PgMemoryContexts::ErrorContext => host.error_context,
            PgMemoryContexts::PostmasterContext => host.postmaster_context,
            PgMemoryContexts::CacheMemoryContext => host.cache_memory_context,
            PgMemoryContexts::MessageContext => host.message_context,
            PgMemoryContexts::TopTransactionContext => host.top_transaction_context,
            PgMemoryContexts::CurTransactionContext => host.cur_transaction_context,
            PgMemoryContexts::For(c) => *c,
            PgMemoryContexts::Owned(o) => o.0,
            PgMemoryContexts::Of(a) => host.chunks.slots@[*a - 1].context,
            PgMemoryContexts::Transient { parent, .. } => *parent,
        }
    }

    /// The state in which [`PgMemoryContexts::switch_to`] runs its body: the
    /// named context current; for a transient selector, a fresh context under
    /// the parent, at the next address.
    pub open spec fn entered_state(&self, host: Host, entered: Host) -> bool {
        match self {
            PgMemoryContexts::Transient {
                parent,
                name,
                min_context_size,
                initial_block_size,
                max_block_size,
            } => {
                &&& entered.current_memory_context.addr == host.contexts.slots@.len() + 1
                &&& entered.contexts.slots@ == host.contexts.slots@.push(
                    MemoryContextData {
                        parent: parent.addr,
                        name: *name,
                        min_context_size: *min_context_size as usize,
                        initial_block_size: *initial_block_size as usize,
                        max_block_size: *max_block_size as usize,
                        deleted: false,
                    },
                )
                &&& entered == (Host {
                    current_memory_context: entered.current_memory_context,
                    contexts: entered.contexts,
                    ..host
                })
            },
            _ => entered == (Host { current_memory_context: self.resolve(host), ..host }),
        }
    }

    /// The state that [`PgMemoryContexts::switch_to`] leaves, from the one its
    /// body left: the context that was current before made current again, and
    /// a transient context deleted.
    pub open spec fn left_state(&self, host: Host, body_left: Host, left: Host) -> bool {
        let created = host.contexts.slots@.len() as int;
        &&& left == (Host {
            current_memory_context: host.current_memory_context,
            contexts: left.contexts,
            ..body_left
        })
        &&& if (self is Transient) && body_left.contexts.slots@.len() > created {
            left.contexts.slots@ == body_left.contexts.slots@.update(
                created,
                MemoryContextData { deleted: true, ..body_left.contexts.slots@[created] },
            )
        } else {
            left.contexts == body_left.contexts
        }
    }

    /// A new context, child of the current one, owned by the result.
    pub fn new(name: &str, host: &mut Host) -> (r: PgMemoryContexts)
        requires
            old(host).wf(),
            old(host).contexts.slots@.len() < usize::MAX,
        ensures
            final(host).wf(),
            r matches PgMemoryContexts::Owned(o) && o.0.addr == old(host).contexts.slots@.len() + 1,
            final(host).contexts.slots@ == old(host).contexts.slots@.push(
                MemoryContextData {
                    parent: old(host).current_memory_context.addr,
                    name: final(host).contexts.slots@.last().name,
                    min_context_size: ALLOCSET_DEFAULT_MINSIZE,
                    initial_block_size: ALLOCSET_DEFAULT_INITSIZE,
                    max_block_size: ALLOCSET_DEFAULT_MAXSIZE,
                    deleted: false,
                },
            ),
            final(host).contexts.slots@.last().name@ == name@,
            final(host).current_memory_context == old(host).current_memory_context,
            final(host).chunks == old(host).chunks,
    {
        let parent = host.current_memory_context;
        let c = alloc_set_context_create(
            host,
            parent,
            name.to_owned(),
            ALLOCSET_DEFAULT_MINSIZE,
            ALLOCSET_DEFAULT_INITSIZE,
            ALLOCSET_DEFAULT_MAXSIZE,
        );
        PgMemoryContexts::Owned(OwnedMemoryContext(c))
    }

    /// The context the selector names. A transient selector names none.
    pub fn value(&self, host: &Host) -> (r: PgPtr<MemoryContextData>)
        requires
            self.usable(*host),
            !(self is Transient),
        ensures
            r == self.resolve(*host),
            host.contexts.contains(r),
    {
        match self {
            PgMemoryContexts::CurrentMemoryContext => host.current_memory_context,
            PgMemoryContexts::TopMemoryContext => host.top_memory_context,
            PgMemoryContexts::PortalContext => host.portal_context,
            PgMemoryContexts::ErrorContext => host.error_context,
            PgMemoryContexts::PostmasterContext => host.postmaster_context,
            PgMemoryContexts::CacheMemoryContext => host.cache_memory_context,
            PgMemoryContexts::MessageContext => host.message_context,
            PgMemoryContexts::TopTransactionContext => host.top_transaction_context,
            PgMemoryContexts::CurTransactionContext => host.cur_transaction_context,
            PgMemoryContexts::For(c) => *c,
            PgMemoryContexts::Owned(o) => o.0,
            PgMemoryContexts::Of(a) => get_context_for_pointer(host, *a),
            PgMemoryContexts::Transient { .. } => host.current_memory_context,
        }
    }

    /// Makes the named context the current one and returns a selector for
    /// the one that was current; restoring it is left to the caller.
    pub fn set_as_current(&self, host: &mut Host) -> (r: PgMemoryContexts)
        requires
            self.usable(*old(host)),
            !(self is Transient),
        ensures
            r == PgMemoryContexts::For(old(host).current_memory_context),
            *final(host) == (Host { current_memory_context: self.resolve(*old(host)), ..*old(host) }),
            final(host).wf(),
    {
        let old_context = host.current_memory_context;
        host.current_memory_context = self.value(host);
        PgMemoryContexts::For(old_context)
    }

    /// Releases every allocation made in the named context.
    pub fn reset(&mut self, host: &mut Host)
        requires
            old(self).usable(*old(host)),
            !(*old(self) is Transient),
        ensures
            *final(self) == *old(self),
            final(host).chunks.slots@.len() == old(host).chunks.slots@.len(),
            forall|i: int|
                0 <= i < old(host).chunks.slots@.len() ==> #[trigger] final(host).chunks.slots@[i]
                    == if old(host).chunks.slots@[i].context == old(self).resolve(*old(host)) {
                    Chunk { freed: true, ..old(host).chunks.slots@[i] }
                } else {
                    old(host).chunks.slots@[i]
                },
            final(host).current_memory_context == old(host).current_memory_context,
            final(host).contexts == old(host).contexts,
            final(host).lists == old(host).lists,
            final(host).wf(),
    {
        let context = self.value(host);
        memory_context_reset(host, context);
    }

    /// Copies `s` into the named context: its bytes followed by a
    /// terminating zero byte.
    pub fn pstrdup(&self, host: &mut Host, s: &str) -> (r: PgPtr<u8>)
        requires
            self.usable(*old(host)),
            !(self is Transient),
            old(host).chunks.slots@.len() < usize::MAX,
            s.spec_bytes().len() < usize::MAX,
        ensures
            r.addr == old(host).chunks.slots@.len() + 1,
            final(host).added_chunk(
                *old(host),
                self.resolve(*old(host)),
                (s.spec_bytes().len() + 1) as usize,
                Some(s.spec_bytes().push(0u8)),
            ),
            *final(host) == (Host { chunks: final(host).chunks, ..*old(host) }),
            final(host).wf(),
    {
        let context = self.value(host);
        let source = s.as_bytes();
        let mut bytes: Vec<u8> = Vec::new();
        let mut i: usize = 0;
        while i < source.len()
            invariant
                i <= source@.len(),
                source@ == s.spec_bytes(),
                bytes@ == source@.take(i as int),
            decreases source@.len() - i,
        {
            bytes.push(source[i]);
            i += 1;
            assert(bytes@ =~= source@.take(i as int));
        }
        assert(source@.take(source@.len() as int) =~= source@);
        bytes.push(0u8);
        let ghost before = host.chunks.slots@;
        let r = memory_context_alloc(host, context, s.len() + 1, Some(bytes));
        assert(host.chunks.slots@.take(before.len() as int) =~= before);
        r
    }

    /// Copies the first `len` bytes of the allocation at `src` into a fresh
    /// allocation in the named context. `src` must not be null and its first
    /// `len` bytes must be known.
    pub fn copy_ptr_into<T>(&mut self, host: &mut Host, src: PgPtr<T>, len: usize) -> (r: PgPtr<T>)
        requires
            old(self).usable(*old(host)),
            !(*old(self) is Transient),
            old(host).chunks.holds(src.addr),
            chunk_bytes(old(host).chunks.slots@[src.addr - 1]) matches Some(b) && len <= b.len(),
            old(host).chunks.slots@.len() < usize::MAX,
        ensures
            *final(self) == *old(self),
            r.addr == old(host).chunks.slots@.len() + 1,
            r.addr != src.addr,
            final(host).added_chunk(
                *old(host),
                old(self).resolve(*old(host)),
                len,
                Some(chunk_bytes(old(host).chunks.slots@[src.addr - 1])->0.take(len as int)),
            ),
            *final(host) == (Host { chunks: final(host).chunks, ..*old(host) }),
            final(host).wf(),
    {
        let context = self.value(host);
        let mut bytes: Vec<u8> = Vec::new();
        match &host.chunks.slots[src.addr - 1].contents {
            Some(source) => {
                let mut i: usize = 0;
                while i < len
                    invariant
                        i <= len,
                        len <= source@.len(),
                        bytes@ == source@.take(i as int),
                    decreases len - i,
                {
                    bytes.push(source[i]);
                    i += 1;
                    assert(bytes@ =~= source@.take(i as int));
                }
            },
            None => {},
        }
        assert(bytes@ == chunk_bytes(host.chunks.slots@[src.addr - 1])->0.take(len as int));
        let ghost before = host.chunks.slots@;
        let r = memory_context_alloc(host, context, len, Some(bytes));
        assert(host.chunks.slots@.take(before.len() as int) =~= before);
        r
    }

    /// Runs `f` with the named context current, and makes the context that
    /// was current before current again, whether `f` succeeded or the host
    /// raised a fault inside it. A transient context is created first and
    /// deleted before returning.
    pub fn switch_to<R, F: FnOnce(Host, PgMemoryContexts) -> (Host, Result<R, HostError>)>(
        self,
        host: Host,
        f: F,
    ) -> (r: (Host, Result<R, HostError>))
        requires
            self.usable(host),
            self is Transient ==> host.contexts.slots@.len() < usize::MAX,
            forall|h: Host, c: PgMemoryContexts| #[trigger] f.requires((h, c)),
        ensures
            r.0.current_memory_context == host.current_memory_context,
            exists|entered: Host, out: (Host, Result<R, HostError>)|
                {
                    &&& #[trigger] f.ensures((entered, PgMemoryContexts::For(entered.current_memory_context)), out)
                    &&& r.1 == out.1
                    &&& self.entered_state(host, entered)
                    &&& self.left_state(host, out.0, r.0)
                },
    {
        match self {
            PgMemoryContexts::Transient {
                parent,
                name,
                min_context_size,
                initial_block_size,
                max_block_size,
            } => {
                let mut created = host;
                let context = alloc_set_context_create(
                    &mut created,
                    parent,
                    name,
                    min_context_size as usize,
                    initial_block_size as usize,
                    max_block_size as usize,
                );
                let ghost start = created;
                let (mut after, result) = exec_in_context(context, created, f);
                proof {
                    let out = choose|out: (Host, Result<R, HostError>)|
                        #[trigger] f.ensures((Host { current_memory_context: context, ..start }, PgMemoryContexts::For(context)), out)
                        && (after, result) == (Host { current_memory_context: start.current_memory_context, ..out.0 }, out.1);
                    let entered = Host { current_memory_context: context, ..start };
                    assert(f.ensures((entered, PgMemoryContexts::For(entered.current_memory_context)), out));
                }
                if after.contexts.slots.len() >= context.addr && context.addr >= 1 {
                    memory_context_delete(&mut after, context);
                }
                (after, result)
            },
            _ => {
                let context = self.value(&host);
                let r = exec_in_context(context, host, f);
                proof {
                    let out = choose|out: (Host, Result<R, HostError>)|
                        #[trigger] f.ensures((Host { current_memory_context: context, ..host }, PgMemoryContexts::For(context)), out)
                        && r == (Host { current_memory_context: host.current_memory_context, ..out.0 }, out.1);
                    let entered = Host { current_memory_context: context, ..host };
                    assert(f.ensures((entered, PgMemoryContexts::For(entered.current_memory_context)), out));
                }
                r
            },
        }
    }
}

/// The context in which the allocation at `addr` was made.
fn get_context_for_pointer(host: &Host, addr: usize) -> (r: PgPtr<MemoryContextData>)
    requires
        host.chunks.holds(addr),
    ensures
        r == host.chunks.slots@[addr - 1].context,
{
    host.chunks.slots[addr - 1].context
}

/// Allocates `size` bytes in `context`, holding `contents`.
fn memory_context_alloc<T>(
    host: &mut Host,
    context: PgPtr<MemoryContextData>,
    size: usize,
    contents: Option<Vec<u8>>,
) -> (r: PgPtr<T>)
    requires
        old(host).chunks.slots@.len() < usize::MAX,
    ensures
        r.addr == old(host).chunks.slots@.len() + 1,
        final(host).chunks.slots@ == old(host).chunks.slots@.push(
            Chunk { context, size, contents, freed: false },
        ),
        *final(host) == (Host { chunks: final(host).chunks, ..*old(host) }),
{
    host.chunks.store(Chunk { context, size, contents, freed: false }).cast()
}

fn memory_context_reset(host: &mut Host, context: PgPtr<MemoryContextData>)
    ensures
        final(host).chunks.slots@.len() == old(host).chunks.slots@.len(),
        forall|i: int|
            0 <= i < old(host).chunks.slots@.len() ==> #[trigger] final(host).chunks.slots@[i]
                == if old(host).chunks.slots@[i].context == context {
                Chunk { freed: true, ..old(host).chunks.slots@[i] }
            } else {
                old(host).chunks.slots@[i]
            },
        *final(host) == (Host { chunks: final(host).chunks, ..*old(host) }),
{
    let ghost before = host.chunks.slots@;
    let mut i: usize = 0;
    while i < host.chunks.slots.len()
        invariant
            i <= host.chunks.slots@.len(),
            host.chunks.slots@.len() == before.len(),
            *host == (Host { chunks: host.chunks, ..*old(host) }),
            before == old(host).chunks.slots@,
            forall|j: int|
                0 <= j < before.len() ==> #[trigger] host.chunks.slots@[j] == if j < i && before[j].context
                    == context {
                    Chunk { freed: true, ..before[j] }
                } else {
                    before[j]
                },
        decreases before.len() - i,
    {
        if host.chunks.slots[i].context == context {
            let c = &mut host.chunks.slots[i];
            c.freed = true;
        }
        i += 1;
    }
}

/// Runs `f` with `context` current, then makes the previous context current
/// again on every outcome of `f`.
fn exec_in_context<R, F: FnOnce(Host, PgMemoryContexts) -> (Host, Result<R, HostError>)>(
    context: PgPtr<MemoryContextData>,
    host: Host,
    f: F,
) -> (r: (Host, Result<R, HostError>))
    requires
        forall|h: Host, c: PgMemoryContexts| #[trigger] f.requires((h, c)),
    ensures
        r.0.current_memory_context == host.current_memory_context,
        exists|out: (Host, Result<R, HostError>)|
            {
                &&& #[trigger] f.ensures((Host { current_memory_context: context, ..host }, PgMemoryContexts::For(context)), out)
                &&& r == (Host { current_memory_context: host.current_memory_context, ..out.0 }, out.1)
            },
{
    let prev_context = host.current_memory_context;
    let mut host = host;
    host.current_memory_context = context;
    let (mut after, result) = f(host, PgMemoryContexts::For(context));
    after.current_memory_context = prev_context;
    (after, result)
}

} // verus!
