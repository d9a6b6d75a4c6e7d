//! The state of the host runtime that the safety layer reads and changes: its
//! memory contexts, the currently active one, its allocations and its records.
use vstd::prelude::*;
use crate::list::List;
use crate::nodes::{FunctionCallInfoBaseData, Node};
use crate::rel::RelationCall;
use crate::relation_data::{Namespace, RelationData};
use crate::pgptr::{Memory, PgPtr};

verus! {

/// A memory context: an arena with a parent (by address; 0 for none), the
/// block sizes it was created with, which can be reset or deleted.
#[derive(Debug, Clone, PartialEq, Eq)]
pub struct MemoryContextData {
    pub parent: usize,
    pub name: String,
    pub min_context_size: usize,
    pub initial_block_size: usize,
    pub max_block_size: usize,
    pub deleted: bool,
}

/// The block sizes of a context created with the host's defaults.
pub const ALLOCSET_DEFAULT_MINSIZE: usize = 0;

pub const ALLOCSET_DEFAULT_INITSIZE: usize = 8192;

pub const ALLOCSET_DEFAULT_MAXSIZE: usize = 8388608;

/// One allocation: the context that owns it, its size in bytes, its bytes
/// when they are known (`None` while uninitialized), and whether it has been
/// released.
#[derive(Clone)]
pub struct Chunk {
    pub context: PgPtr<MemoryContextData>,
    pub size: usize,
    pub contents: Option<Vec<u8>>,
    pub freed: bool,
}

/// The bytes of an allocation, when known.
pub open spec fn chunk_bytes(c: Chunk) -> Option<Seq<u8>> {
    match c.contents {
        Some(v) => Some(v@),
        None => None,
    }
}

/// `size` zero bytes.
pub open spec fn zeros(size: usize) -> Seq<u8> {
    Seq::new(size as nat, |i: int| 0u8)
}

/// A context record with the default block sizes.
fn default_context(parent: usize, name: &str) -> (r: MemoryContextData)
    ensures
        r.parent == parent,
        r.name@ == name@,
        r.min_context_size == ALLOCSET_DEFAULT_MINSIZE,
        r.initial_block_size == ALLOCSET_DEFAULT_INITSIZE,
        r.max_block_size == ALLOCSET_DEFAULT_MAXSIZE,
        !r.deleted,
{
    MemoryContextData {
        parent,
        name: name.to_owned(),
        min_context_size: ALLOCSET_DEFAULT_MINSIZE,
        initial_block_size: ALLOCSET_DEFAULT_INITSIZE,
        max_block_size: ALLOCSET_DEFAULT_MAXSIZE,
        deleted: false,
    }
}

/// The host's process-wide memory state.
pub struct Host {
    pub current_memory_context: PgPtr<MemoryContextData>,
    pub top_memory_context: PgPtr<MemoryContextData>,
    pub portal_context: PgPtr<MemoryContextData>,
    pub error_context: PgPtr<MemoryContextData>,
    pub postmaster_context: PgPtr<MemoryContextData>,
    pub cache_memory_context: PgPtr<MemoryContextData>,
    pub message_context: PgPtr<MemoryContextData>,
    pub top_transaction_context: PgPtr<MemoryContextData>,
    pub cur_transaction_context: PgPtr<MemoryContextData>,
    pub contexts: Memory<MemoryContextData>,
    pub chunks: Memory<Chunk>,
    pub lists: Memory<List>,
    pub nodes: Memory<Node>,
    pub calls: Memory<FunctionCallInfoBaseData>,
    pub relations: Memory<RelationData>,
    pub namespaces: Vec<Namespace>,
    /// The relation routines called so far, in order.
    pub relation_calls: Vec<RelationCall>,
}

/// The addresses at which a fresh host places its well-known contexts.
pub const TOP_MEMORY_CONTEXT: usize = 1;

pub const PORTAL_CONTEXT: usize = 2;

pub const ERROR_CONTEXT: usize = 3;

pub const POSTMASTER_CONTEXT: usize = 4;

pub const CACHE_MEMORY_CONTEXT: usize = 5;

pub const MESSAGE_CONTEXT: usize = 6;

pub const TOP_TRANSACTION_CONTEXT: usize = 7;

pub const CUR_TRANSACTION_CONTEXT: usize = 8;

impl Host {
    /// Every well-known context, and the current one, is a context of the host.
    pub open spec fn wf(&self) -> bool {
        &&& self.contexts.contains(self.current_memory_context)
        &&& self.contexts.contains(self.top_memory_context)
        &&& self.contexts.contains(self.portal_context)
        &&& self.contexts.contains(self.error_context)
        &&& self.contexts.contains(self.postmaster_context)
        &&& self.contexts.contains(self.cache_memory_context)
        &&& self.contexts.contains(self.message_context)
        &&& self.contexts.contains(self.top_transaction_context)
        &&& self.contexts.contains(self.cur_transaction_context)
    }

    /// `self` is `before` with one more allocation, at `addr`, of `size`
    /// bytes in the context that was current.
    /// When `zeroed` holds, its bytes are all zero; otherwise they are not
    /// known.
    pub open spec fn allocated(&self, before: Host, addr: usize, size: usize, zeroed: bool) -> bool {
        &&& addr == before.chunks.slots@.len() + 1
        &&& self.added_chunk(
            before,
            before.current_memory_context,
            size,
            if zeroed { Some(zeros(size)) } else { None },
        )
        &&& self.same_but_chunks(before)
    }

    /// `self` has the allocations of `before` and one more, last, owned by
    /// `context`, of `size` bytes, holding `bytes`.
    pub open spec fn added_chunk(
        &self,
        before: Host,
        context: PgPtr<MemoryContextData>,
        size: usize,
        bytes: Option<Seq<u8>>,
    ) -> bool {
        let last = self.chunks.slots@.last();
        &&& self.chunks.slots@.len() == before.chunks.slots@.len() + 1
        &&& self.chunks.slots@.take(before.chunks.slots@.len() as int) == before.chunks.slots@
        &&& last.context == context
        &&& last.size == size
        &&& chunk_bytes(last) == bytes
        &&& !last.freed
    }

    /// `self` is `before` with the allocation at `addr` released.
    pub open spec fn freed(&self, before: Host, addr: usize) -> bool {
        let c = before.chunks.slots@[addr - 1];
        &&& self.chunks.slots@ == before.chunks.slots@.update(addr - 1, Chunk { freed: true, ..c })
        &&& self.same_but_chunks(before)
    }

    /// All but the allocations are as in `before`.
    pub open spec fn same_but_chunks(&self, before: Host) -> bool {
        &&& self.current_memory_context == before.current_memory_context
        &&& self.top_memory_context == before.top_memory_context
        &&& self.portal_context == before.portal_context
        &&& self.error_context == before.error_context
        &&& self.postmaster_context == before.postmaster_context
        &&& self.cache_memory_context == before.cache_memory_context
        &&& self.message_context == before.message_context
        &&& self.top_transaction_context == before.top_transaction_context
        &&& self.cur_transaction_context == before.cur_transaction_context
        &&& self.contexts == before.contexts
        &&& self.lists == before.lists
        &&& self.nodes == before.nodes
        &&& self.calls == before.calls
        &&& self.relations == before.relations
        &&& self.namespaces == before.namespaces
        &&& self.relation_calls == before.relation_calls
    }

    /// A host at startup: the well-known contexts, the top one current, and
    /// nothing else.
    pub fn new() -> (r: Host)
        ensures
            r.wf(),
            r.contexts.slots@.len() == 8,
            r.current_memory_context.addr == TOP_MEMORY_CONTEXT,
            r.top_memory_context.addr == TOP_MEMORY_CONTEXT,
            r.portal_context.addr == PORTAL_CONTEXT,
            r.error_context.addr == ERROR_CONTEXT,
            r.postmaster_context.addr == POSTMASTER_CONTEXT,
            r.cache_memory_context.addr == CACHE_MEMORY_CONTEXT,
            r.message_context.addr == MESSAGE_CONTEXT,
            r.top_transaction_context.addr == TOP_TRANSACTION_CONTEXT,
            r.cur_transaction_context.addr == CUR_TRANSACTION_CONTEXT,
            r.chunks.slots@.len() == 0,
            r.lists.slots@.len() == 0,
            r.nodes.slots@.len() == 0,
            r.calls.slots@.len() == 0,
            r.relations.slots@.len() == 0,
            r.namespaces@.len() == 0,
            r.relation_calls@.len() == 0,
    {
        let mut contexts: Memory<MemoryContextData> = Memory::new();
        let top = contexts.store(default_context(0, "TopMemoryContext"));
        let portal = contexts.store(default_context(TOP_MEMORY_CONTEXT, "PortalContext"));
        let error = contexts.store(default_context(TOP_MEMORY_CONTEXT, "ErrorContext"));
        let postmaster = contexts.store(default_context(TOP_MEMORY_CONTEXT, "Postmaster"));
        let cache = contexts.store(default_context(TOP_MEMORY_CONTEXT, "CacheMemoryContext"));
        let message = contexts.store(default_context(TOP_MEMORY_CONTEXT, "MessageContext"));
        let top_transaction = contexts.store(default_context(TOP_MEMORY_CONTEXT, "TopTransactionContext"));
        let cur_transaction = contexts.store(default_context(TOP_TRANSACTION_CONTEXT, "CurTransactionContext"));
        Host {
            current_memory_context: top,
            top_memory_context: top,
            portal_context: portal,
            error_context: error,
            postmaster_context: postmaster,
            cache_memory_context: cache,
            message_context: message,
            top_transaction_context: top_transaction,
            cur_transaction_context: cur_transaction,
            contexts,
            chunks: Memory::new(),
            lists: Memory::new(),
            nodes: Memory::new(),
            calls: Memory::new(),
            relations: Memory::new(),
            namespaces: Vec::new(),
            relation_calls: Vec::new(),
        }
    }
}

} // verus!
