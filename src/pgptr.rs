//! Typed, copyable, nullable handles into arena memory, and the memory they
//! point into.
use vstd::prelude::*;
use core::marker::PhantomData;
use crate::host::{zeros, Chunk, Host};

verus! {

/// A word-sized value handed across the host's function-call interface.
pub type Datum = usize;

/// An object identifier of the host's catalogs.
pub type Oid = u32;

/// A handle to a `T` in host memory, by address; address 0 is null. The handle
/// owns nothing: copies are interchangeable and equal by address.
pub struct PgPtr<T> {
    pub addr: usize,
    pub marker: PhantomData<T>,
}

impl<T> Clone for PgPtr<T> {
    fn clone(&self) -> (r: Self)
        ensures
            r.addr == self.addr,
    {
        PgPtr { addr: self.addr, marker: PhantomData }
    }
}

impl<T> Copy for PgPtr<T> {

}

impl<T> PartialEq for PgPtr<T> {
    fn eq(&self, other: &PgPtr<T>) -> (r: bool) {
        self.addr == other.addr
    }
}

impl<T> vstd::std_specs::cmp::PartialEqSpecImpl for PgPtr<T> {
    open spec fn obeys_eq_spec() -> bool {
        true
    }

    open spec fn eq_spec(&self, other: &PgPtr<T>) -> bool {
        self.addr == other.addr
    }
}

/// The records of type `T` that the host holds; the record at address `a`
/// (from 1) is `slots[a - 1]`.
pub struct Memory<T> {
    pub slots: Vec<T>,
}

impl<T> Memory<T> {
    pub fn new() -> (r: Memory<T>)
        ensures
            r.slots@.len() == 0,
    {
        Memory { slots: Vec::new() }
    }

    /// Whether `p` addresses a record here; never true of the null handle.
    pub open spec fn contains(&self, p: PgPtr<T>) -> bool {
        self.holds(p.addr)
    }

    /// Whether a record lives at `addr`.
    pub open spec fn holds(&self, addr: usize) -> bool {
        1 <= addr <= self.slots@.len()
    }

    /// The record that `p` addresses.
    pub open spec fn at(&self, p: PgPtr<T>) -> T {
        self.slots@[p.addr - 1]
    }

    /// Places a record at a fresh address.
    pub fn store(&mut self, value: T) -> (p: PgPtr<T>)
        requires
            old(self).slots@.len() < usize::MAX,
        ensures
            p.addr == old(self).slots@.len() + 1,
            final(self).slots@ == old(self).slots@.push(value),
    {
        self.slots.push(value);
        PgPtr { addr: self.slots.len(), marker: PhantomData }
    }
}

impl<T> PgPtr<T> {
    pub fn null_mut() -> (r: PgPtr<T>)
        ensures
            r.addr == 0,
    {
        PgPtr { addr: 0, marker: PhantomData }
    }

    pub fn from_raw(addr: usize) -> (r: PgPtr<T>)
        ensures
            r.addr == addr,
    {
        PgPtr { addr, marker: PhantomData }
    }

    /// The same address, seen as pointing to a `C`.
    pub fn cast<C>(&self) -> (r: PgPtr<C>)
        ensures
            r.addr == self.addr,
    {
        PgPtr { addr: self.addr, marker: PhantomData }
    }

    pub fn is_null(&self) -> (r: bool)
        ensures
            r == (self.addr == 0),
    {
        self.addr == 0
    }

    pub fn as_ptr(&self) -> (r: usize)
        ensures
            r == self.addr,
    {
        self.addr
    }

    pub fn as_mut_ptr(&mut self) -> (r: usize)
        ensures
            r == old(self).addr,
            *final(self) == *old(self),
    {
        self.addr
    }

    /// A handle from a datum that carries an address.
    pub fn from(datum: Datum) -> (r: PgPtr<T>)
        ensures
            r.addr == datum,
    {
        PgPtr { addr: datum, marker: PhantomData }
    }

    /// The record behind the handle; the handle must address one, so a null
    /// handle can never be dereferenced.
    pub fn deref<'a>(&self, memory: &'a Memory<T>) -> (r: &'a T)
        requires
            memory.contains(*self),
        ensures
            *r == memory.at(*self),
    {
        &memory.slots[self.addr - 1]
    }

    /// The record behind the handle, for writing.
    pub fn deref_mut<'a>(&self, memory: &'a mut Memory<T>) -> (r: &'a mut T)
        requires
            old(memory).contains(*self),
        ensures
            *r == old(memory).at(*self),
            final(memory).slots@ == old(memory).slots@.update(self.addr - 1, *final(r)),
    {
        &mut memory.slots[self.addr - 1]
    }

    /// Allocates `size_of::<T>() + len` bytes, uninitialized, in the current
    /// memory context.
    pub fn with_extra_len(host: &mut Host, len: usize) -> (r: PgPtr<T>)
        requires
            old(host).wf(),
            old(host).chunks.slots@.len() < usize::MAX,
            size_of::<T>() + len <= usize::MAX,
        ensures
            final(host).wf(),
            final(host).allocated(*old(host), r.addr, (size_of::<T>() + len) as usize, false),
    {
        palloc(host, core::mem::size_of::<T>() + len)
    }

    /// Allocates `size_of::<T>() + len` zeroed bytes in the current memory
    /// context.
    pub fn with_extra_len0(host: &mut Host, len: usize) -> (r: PgPtr<T>)
        requires
            old(host).wf(),
            old(host).chunks.slots@.len() < usize::MAX,
            size_of::<T>() + len <= usize::MAX,
        ensures
            final(host).wf(),
            final(host).allocated(*old(host), r.addr, (size_of::<T>() + len) as usize, true),
    {
        palloc0(host, core::mem::size_of::<T>() + len)
    }

    /// Allocates room for `len` values of `T`, uninitialized, in the current
    /// memory context.
    pub fn array(host: &mut Host, len: usize) -> (r: PgPtr<T>)
        requires
            old(host).wf(),
            old(host).chunks.slots@.len() < usize::MAX,
            size_of::<T>() * len <= usize::MAX,
        ensures
            final(host).wf(),
            final(host).allocated(*old(host), r.addr, (size_of::<T>() * len) as usize, false),
    {
        palloc(host, core::mem::size_of::<T>() * len)
    }

    /// Allocates room for `len` zeroed values of `T` in the current memory
    /// context.
    pub fn array0(host: &mut Host, len: usize) -> (r: PgPtr<T>)
        requires
            old(host).wf(),
            old(host).chunks.slots@.len() < usize::MAX,
            size_of::<T>() * len <= usize::MAX,
        ensures
            final(host).wf(),
            final(host).allocated(*old(host), r.addr, (size_of::<T>() * len) as usize, true),
    {
        palloc0(host, core::mem::size_of::<T>() * len)
    }

    /// Allocates one `T`, uninitialized, in the current memory context.
    pub fn allocate(host: &mut Host) -> (r: PgPtr<T>)
        requires
            old(host).wf(),
            old(host).chunks.slots@.len() < usize::MAX,
        ensures
            final(host).wf(),
            final(host).allocated(*old(host), r.addr, size_of::<T>() as usize, false),
    {
        palloc(host, core::mem::size_of::<T>())
    }

    /// Allocates one zeroed `T` in the current memory context.
    pub fn allocate_zeroed(host: &mut Host) -> (r: PgPtr<T>)
        requires
            old(host).wf(),
            old(host).chunks.slots@.len() < usize::MAX,
        ensures
            final(host).wf(),
            final(host).allocated(*old(host), r.addr, size_of::<T>() as usize, true),
    {
        palloc0(host, core::mem::size_of::<T>())
    }

    /// Returns the memory behind the handle to its memory context. The handle
    /// must not be used afterwards.
    pub fn free(self, host: &mut Host)
        requires
            old(host).wf(),
            old(host).chunks.holds(self.addr),
        ensures
            final(host).wf(),
            final(host).freed(*old(host), self.addr),
    {
        pfree(host, self)
    }
}

/// Allocates `size` uninitialized bytes in the current memory context.
pub fn palloc<T>(host: &mut Host, size: usize) -> (r: PgPtr<T>)
    requires
        old(host).wf(),
        old(host).chunks.slots@.len() < usize::MAX,
    ensures
        final(host).wf(),
        final(host).allocated(*old(host), r.addr, size, false),
{
    let ghost before = host.chunks.slots@;
    let chunk = Chunk { context: host.current_memory_context, size, contents: None, freed: false };
    let p = host.chunks.store(chunk);
    assert(host.chunks.slots@.take(before.len() as int) =~= before);
    p.cast()
}

/// Allocates `size` zeroed bytes in the current memory context.
pub fn palloc0<T>(host: &mut Host, size: usize) -> (r: PgPtr<T>)
    requires
        old(host).wf(),
        old(host).chunks.slots@.len() < usize::MAX,
    ensures
        final(host).wf(),
        final(host).allocated(*old(host), r.addr, size, true),
{
    let ghost before = host.chunks.slots@;
    let bytes: Vec<u8> = vec![0u8; size];
    assert(bytes@ =~= zeros(size));
    let chunk = Chunk { context: host.current_memory_context, size, contents: Some(bytes), freed: false };
    let p = host.chunks.store(chunk);
    assert(host.chunks.slots@.take(before.len() as int) =~= before);
    p.cast()
}

/// Returns an allocation to its memory context.
pub fn pfree<T>(host: &mut Host, p: PgPtr<T>)
    requires
        old(host).wf(),
        old(host).chunks.holds(p.addr),
    ensures
        final(host).wf(),
        final(host).freed(*old(host), p.addr),
{
    let c: PgPtr<Chunk> = p.cast();
    let chunk = c.deref_mut(&mut host.chunks);
    chunk.freed = true;
}

/// A null handle addresses no record, so `deref` and `deref_mut` refuse it.
pub proof fn lemma_null_is_never_dereferenced<T>(memory: Memory<T>, p: PgPtr<T>)
    requires
        p.addr == 0,
    ensures
        !memory.contains(p),
{
}

} // verus!
