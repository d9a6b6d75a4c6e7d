//! The host's growable lists of pointers, integers or object identifiers,
//! reached through a possibly-null handle.
use vstd::prelude::*;
use crate::host::Host;
use crate::pgptr::{Oid, PgPtr};

verus! {

/// One element of a host list.
#[derive(Debug, Clone, Copy, PartialEq, Eq)]
pub enum ListCell {
    Ptr(usize),
    Int(i32),
    Oid(Oid),
}

/// The kind of element a list holds; every element of a list is of one kind.
#[derive(Debug, Clone, Copy, PartialEq, Eq, Structural)]
pub enum ListKind {
    Ptr,
    Int,
    Oid,
}

pub open spec fn cell_kind(c: ListCell) -> ListKind {
    match c {
        ListCell::Ptr(_) => ListKind::Ptr,
        ListCell::Int(_) => ListKind::Int,
        ListCell::Oid(_) => ListKind::Oid,
    }
}

/// A host list record.
pub struct List {
    pub cells: Vec<ListCell>,
}

/// The elements that a handle reaches: none when it is null.
pub open spec fn cells_of(p: PgPtr<List>, host: Host) -> Seq<ListCell> {
    if p.addr == 0 {
        Seq::empty()
    } else {
        host.lists.at(p).cells@
    }
}

/// The handle is null, or reaches a list of `kind` elements whose length fits
/// the host's `int`.
pub open spec fn list_ok(p: PgPtr<List>, host: Host, kind: ListKind) -> bool {
    &&& (p.addr == 0 || host.lists.contains(p))
    &&& cells_of(p, host).len() <= i32::MAX
    &&& forall|i: int| 0 <= i < cells_of(p, host).len() ==> cell_kind(#[trigger] cells_of(p, host)[i]) == kind
}

/// What popping a list gives: its last element, if any.
pub open spec fn popped(cells: Seq<ListCell>) -> Option<ListCell> {
    if cells.len() == 0 {
        None
    } else {
        Some(cells.last())
    }
}

/// What is left after popping a list.
pub open spec fn pop_rest(cells: Seq<ListCell>) -> Seq<ListCell> {
    if cells.len() == 0 {
        cells
    } else {
        cells.drop_last()
    }
}

/// The element at `i`, if `i` is in bounds.
pub open spec fn nth(cells: Seq<ListCell>, i: int) -> Option<ListCell> {
    if 0 <= i < cells.len() {
        Some(cells[i])
    } else {
        None
    }
}

pub open spec fn as_i32(c: Option<ListCell>) -> Option<i32> {
    match c {
        Some(ListCell::Int(v)) => Some(v),
        _ => None,
    }
}

pub open spec fn as_oid(c: Option<ListCell>) -> Option<Oid> {
    match c {
        Some(ListCell::Oid(v)) => Some(v),
        _ => None,
    }
}

pub open spec fn as_ptr(c: Option<ListCell>) -> Option<usize> {
    match c {
        Some(ListCell::Ptr(v)) => Some(v),
        _ => None,
    }
}

/// The address that an optional handle holds.
pub open spec fn handle_addr<T>(r: Option<PgPtr<T>>) -> Option<usize> {
    match r {
        Some(p) => Some(p.addr),
        None => None,
    }
}

/// The integers of an integer list, in order.
pub open spec fn ints(cells: Seq<ListCell>) -> Seq<i32> {
    cells.map_values(|c: ListCell| match c {
        ListCell::Int(v) => v,
        _ => 0,
    })
}

/// The object identifiers of an identifier list, in order.
pub open spec fn oids(cells: Seq<ListCell>) -> Seq<Oid> {
    cells.map_values(|c: ListCell| match c {
        ListCell::Oid(v) => v,
        _ => 0,
    })
}

/// `after` is `before` with the list records other than `keep` unchanged.
pub open spec fn other_lists_kept(after: Host, before: Host, keep: usize) -> bool {
    &&& after.lists.slots@.len() >= before.lists.slots@.len()
    &&& forall|a: int|
        1 <= a <= before.lists.slots@.len() && a != keep ==> #[trigger] after.lists.slots@[a - 1]
            == before.lists.slots@[a - 1]
    &&& after.current_memory_context == before.current_memory_context
    &&& after.contexts == before.contexts
    &&& after.chunks == before.chunks
}

/// Appends an element, creating the list when the handle is null; returns the
/// handle to the list, which may differ from the one passed.
fn lappend(host: &mut Host, p: PgPtr<List>, c: ListCell) -> (r: PgPtr<List>)
    requires
        p.addr == 0 || old(host).lists.contains(p),
        p.addr == 0 ==> old(host).lists.slots@.len() < usize::MAX,
    ensures
        r.addr != 0,
        final(host).lists.contains(r),
        cells_of(r, *final(host)) == cells_of(p, *old(host)).push(c),
        other_lists_kept(*final(host), *old(host), p.addr),
        p.addr == 0 ==> r.addr == old(host).lists.slots@.len() + 1,
        p.addr != 0 ==> r.addr == p.addr,
        final(host).wf() == old(host).wf(),
{
    if p.is_null() {
        let mut cells: Vec<ListCell> = Vec::new();
        cells.push(c);
        let r = host.lists.store(List { cells });
        assert(cells_of(r, *host) =~= Seq::<ListCell>::empty().push(c));
        r
    } else {
        let list = p.deref_mut(&mut host.lists);
        list.cells.push(c);
        p
    }
}

/// Shortens the list to `n` elements; an empty list is the null handle.
fn list_truncate(host: &mut Host, p: PgPtr<List>, n: usize) -> (r: PgPtr<List>)
    requires
        old(host).lists.contains(p),
        n <= cells_of(p, *old(host)).len(),
    ensures
        n == 0 ==> r.addr == 0,
        n > 0 ==> r.addr == p.addr,
        cells_of(r, *final(host)) == cells_of(p, *old(host)).take(n as int),
        final(host).lists.contains(p),
        other_lists_kept(*final(host), *old(host), p.addr),
        final(host).wf() == old(host).wf(),
{
    let list = p.deref_mut(&mut host.lists);
    list.cells.truncate(n);
    if n == 0 {
        PgPtr::null_mut()
    } else {
        p
    }
}

impl PgPtr<List> {
    /// The empty list: the null handle.
    pub fn new<T>() -> (r: PgPtr<List>)
        ensures
            r.addr == 0,
    {
        PgPtr::null_mut()
    }

    /// The number of elements; 0 for the null handle.
    pub fn len(&self, host: &Host) -> (r: i32)
        requires
            self.addr == 0 || host.lists.contains(*self),
            cells_of(*self, *host).len() <= i32::MAX,
        ensures
            r == cells_of(*self, *host).len(),
    {
        if self.is_null() {
            0
        } else {
            self.deref(&host.lists).cells.len() as i32
        }
    }

    pub fn is_empty(&self, host: &Host) -> (r: bool)
        requires
            self.addr == 0 || host.lists.contains(*self),
            cells_of(*self, *host).len() <= i32::MAX,
        ensures
            r == (cells_of(*self, *host).len() == 0),
    {
        self.len(host) == 0
    }

    fn nth_cell<'a>(&self, host: &'a Host, i: i32) -> (r: Option<&'a ListCell>)
        requires
            self.addr == 0 || host.lists.contains(*self),
            cells_of(*self, *host).len() <= i32::MAX,
        ensures
            match r {
                Some(c) => nth(cells_of(*self, *host), i as int) == Some(*c),
                None => nth(cells_of(*self, *host), i as int) is None,
            },
    {
        if i < 0 || i >= self.len(host) {
            None
        } else {
            Some(&self.deref(&host.lists).cells[i as usize])
        }
    }

    /// The pointer at `i`, if `i` is in bounds.
    pub fn get_ptr<T>(&self, host: &Host, i: i32) -> (r: Option<PgPtr<T>>)
        requires
            list_ok(*self, *host, ListKind::Ptr),
        ensures
            handle_addr(r) == as_ptr(nth(cells_of(*self, *host), i as int)),
    {
        match self.nth_cell(host, i) {
            Some(ListCell::Ptr(a)) => Some(PgPtr::from_raw(*a)),
            _ => None,
        }
    }

    /// The integer at `i`, if `i` is in bounds.
    pub fn get_i32(&self, host: &Host, i: i32) -> (r: Option<i32>)
        requires
            list_ok(*self, *host, ListKind::Int),
        ensures
            r == as_i32(nth(cells_of(*self, *host), i as int)),
            r is Some <==> 0 <= i < cells_of(*self, *host).len(),
    {
        match self.nth_cell(host, i) {
            Some(ListCell::Int(v)) => Some(*v),
            _ => None,
        }
    }

    /// The object identifier at `i`, if `i` is in bounds.
    pub fn get_oid(&self, host: &Host, i: i32) -> (r: Option<Oid>)
        requires
            list_ok(*self, *host, ListKind::Oid),
        ensures
            r == as_oid(nth(cells_of(*self, *host), i as int)),
            r is Some <==> 0 <= i < cells_of(*self, *host).len(),
    {
        match self.nth_cell(host, i) {
            Some(ListCell::Oid(v)) => Some(*v),
            _ => None,
        }
    }

    pub fn head_ptr<T>(&self, host: &Host) -> (r: Option<PgPtr<T>>)
        requires
            list_ok(*self, *host, ListKind::Ptr),
        ensures
            handle_addr(r) == as_ptr(nth(cells_of(*self, *host), 0)),
    {
        self.get_ptr(host, 0)
    }

    pub fn tail_ptr<T>(&self, host: &Host) -> (r: Option<PgPtr<T>>)
        requires
            list_ok(*self, *host, ListKind::Ptr),
        ensures
            handle_addr(r) == as_ptr(popped(cells_of(*self, *host))),
    {
        self.get_ptr(host, self.len(host) - 1)
    }

    pub fn head_i32(&self, host: &Host) -> (r: Option<i32>)
        requires
            list_ok(*self, *host, ListKind::Int),
        ensures
            r == as_i32(nth(cells_of(*self, *host), 0)),
    {
        self.get_i32(host, 0)
    }

    pub fn tail_i32(&self, host: &Host) -> (r: Option<i32>)
        requires
            list_ok(*self, *host, ListKind::Int),
        ensures
            r == as_i32(popped(cells_of(*self, *host))),
    {
        self.get_i32(host, self.len(host) - 1)
    }

    pub fn head_oid(&self, host: &Host) -> (r: Option<Oid>)
        requires
            list_ok(*self, *host, ListKind::Oid),
        ensures
            r == as_oid(nth(cells_of(*self, *host), 0)),
    {
        self.get_oid(host, 0)
    }

    pub fn tail_oid(&self, host: &Host) -> (r: Option<Oid>)
        requires
            list_ok(*self, *host, ListKind::Oid),
        ensures
            r == as_oid(popped(cells_of(*self, *host))),
    {
        self.get_oid(host, self.len(host) - 1)
    }

    fn push_cell(&mut self, host: &mut Host, c: ListCell, Ghost(kind): Ghost<ListKind>)
        requires
            list_ok(*old(self), *old(host), kind),
            cell_kind(c) == kind,
            cells_of(*old(self), *old(host)).len() < i32::MAX,
            old(self).addr == 0 ==> old(host).lists.slots@.len() < usize::MAX,
        ensures
            final(self).addr != 0,
            cells_of(*final(self), *final(host)) == cells_of(*old(self), *old(host)).push(c),
            list_ok(*final(self), *final(host), kind),
            other_lists_kept(*final(host), *old(host), old(self).addr),
            final(host).wf() == old(host).wf(),
    {
        let p = lappend(host, *self, c);
        *self = p;
        assert forall|i: int| 0 <= i < cells_of(*self, *host).len() implies cell_kind(
            #[trigger] cells_of(*self, *host)[i],
        ) == kind by {
            if i < cells_of(*self, *host).len() - 1 {
                assert(cells_of(*self, *host)[i] == cells_of(*old(self), *old(host))[i]);
            }
        }
    }

    fn pop_cell(&mut self, host: &mut Host, Ghost(kind): Ghost<ListKind>) -> (r: Option<ListCell>)
        requires
            list_ok(*old(self), *old(host), kind),
        ensures
            r == popped(cells_of(*old(self), *old(host))),
            cells_of(*old(self), *old(host)).len() == 0 ==> *final(self) == *old(self) && *final(host)
                == *old(host),
            cells_of(*final(self), *final(host)) == pop_rest(cells_of(*old(self), *old(host))),
            list_ok(*final(self), *final(host), kind),
            other_lists_kept(*final(host), *old(host), old(self).addr),
            final(host).wf() == old(host).wf(),
    {
        let n = self.len(host);
        if n == 0 {
            return None;
        }
        let tail = match self.nth_cell(host, n - 1) {
            Some(ListCell::Ptr(a)) => ListCell::Ptr(*a),
            Some(ListCell::Int(v)) => ListCell::Int(*v),
            Some(ListCell::Oid(v)) => ListCell::Oid(*v),
            None => {
                return None;
            },
        };
        let p = list_truncate(host, *self, (n - 1) as usize);
        *self = p;
        assert(cells_of(*old(self), *old(host)).take(n - 1) =~= cells_of(*old(self), *old(host)).drop_last());
        assert forall|i: int| 0 <= i < cells_of(*self, *host).len() implies cell_kind(
            #[trigger] cells_of(*self, *host)[i],
        ) == kind by {
            assert(cells_of(*self, *host)[i] == cells_of(*old(self), *old(host))[i]);
        }
        Some(tail)
    }

    fn replace_cell(&mut self, host: &mut Host, i: i32, c: ListCell, Ghost(kind): Ghost<ListKind>) -> (r: Option<ListCell>)
        requires
            list_ok(*old(self), *old(host), kind),
            cell_kind(c) == kind,
        ensures
            r == nth(cells_of(*old(self), *old(host)), i as int),
            *final(self) == *old(self),
            cells_of(*final(self), *final(host)) == if 0 <= i < cells_of(*old(self), *old(host)).len() {
                cells_of(*old(self), *old(host)).update(i as int, c)
            } else {
                cells_of(*old(self), *old(host))
            },
            list_ok(*final(self), *final(host), kind),
            other_lists_kept(*final(host), *old(host), old(self).addr),
            final(host).wf() == old(host).wf(),
    {
        let previous = match self.nth_cell(host, i) {
            Some(ListCell::Ptr(a)) => ListCell::Ptr(*a),
            Some(ListCell::Int(v)) => ListCell::Int(*v),
            Some(ListCell::Oid(v)) => ListCell::Oid(*v),
            None => {
                return None;
            },
        };
        let list = self.deref_mut(&mut host.lists);
        list.cells.set(i as usize, c);
        assert forall|j: int| 0 <= j < cells_of(*self, *host).len() implies cell_kind(
            #[trigger] cells_of(*self, *host)[j],
        ) == kind by {
            if j != i {
                assert(cells_of(*self, *host)[j] == cells_of(*old(self), *old(host))[j]);
            }
        }
        Some(previous)
    }

    /// Appends a pointer; the handle is reassigned to the list that results.
    pub fn push_ptr<T>(&mut self, host: &mut Host, ptr: PgPtr<T>)
        requires
            list_ok(*old(self), *old(host), ListKind::Ptr),
            cells_of(*old(self), *old(host)).len() < i32::MAX,
            old(self).addr == 0 ==> old(host).lists.slots@.len() < usize::MAX,
        ensures
            cells_of(*final(self), *final(host)) == cells_of(*old(self), *old(host)).push(ListCell::Ptr(ptr.addr)),
            list_ok(*final(self), *final(host), ListKind::Ptr),
            other_lists_kept(*final(host), *old(host), old(self).addr),
            final(host).wf() == old(host).wf(),
    {
        self.push_cell(host, ListCell::Ptr(ptr.addr), Ghost(ListKind::Ptr));
    }

    /// Appends an integer; the handle is reassigned to the list that results.
    pub fn push_i32(&mut self, host: &mut Host, i: i32)
        requires
            list_ok(*old(self), *old(host), ListKind::Int),
            cells_of(*old(self), *old(host)).len() < i32::MAX,
            old(self).addr == 0 ==> old(host).lists.slots@.len() < usize::MAX,
        ensures
            cells_of(*final(self), *final(host)) == cells_of(*old(self), *old(host)).push(ListCell::Int(i)),
            list_ok(*final(self), *final(host), ListKind::Int),
            other_lists_kept(*final(host), *old(host), old(self).addr),
            final(host).wf() == old(host).wf(),
    {
        self.push_cell(host, ListCell::Int(i), Ghost(ListKind::Int));
    }

    /// Appends an object identifier; the handle is reassigned to the list that
    /// results.
    pub fn push_oid(&mut self, host: &mut Host, oid: Oid)
        requires
            list_ok(*old(self), *old(host), ListKind::Oid),
            cells_of(*old(self), *old(host)).len() < i32::MAX,
            old(self).addr == 0 ==> old(host).lists.slots@.len() < usize::MAX,
        ensures
            cells_of(*final(self), *final(host)) == cells_of(*old(self), *old(host)).push(ListCell::Oid(oid)),
            list_ok(*final(self), *final(host), ListKind::Oid),
            other_lists_kept(*final(host), *old(host), old(self).addr),
            final(host).wf() == old(host).wf(),
    {
        self.push_cell(host, ListCell::Oid(oid), Ghost(ListKind::Oid));
    }

    /// Removes and returns the last pointer, truncating the list by one.
    pub fn pop_ptr<T>(&mut self, host: &mut Host) -> (r: Option<PgPtr<T>>)
        requires
            list_ok(*old(self), *old(host), ListKind::Ptr),
        ensures
            handle_addr(r) == as_ptr(popped(cells_of(*old(self), *old(host)))),
            cells_of(*old(self), *old(host)).len() == 0 ==> *final(self) == *old(self) && *final(host)
                == *old(host),
            cells_of(*final(self), *final(host)) == pop_rest(cells_of(*old(self), *old(host))),
            list_ok(*final(self), *final(host), ListKind::Ptr),
            other_lists_kept(*final(host), *old(host), old(self).addr),
            final(host).wf() == old(host).wf(),
    {
        match self.pop_cell(host, Ghost(ListKind::Ptr)) {
            Some(ListCell::Ptr(a)) => Some(PgPtr::from_raw(a)),
            _ => None,
        }
    }

    /// Removes and returns the last integer, truncating the list by one.
    pub fn pop_i32(&mut self, host: &mut Host) -> (r: Option<i32>)
        requires
            list_ok(*old(self), *old(host), ListKind::Int),
        ensures
            r == as_i32(popped(cells_of(*old(self), *old(host)))),
            cells_of(*old(self), *old(host)).len() == 0 ==> *final(self) == *old(self) && *final(host)
                == *old(host),
            cells_of(*final(self), *final(host)) == pop_rest(cells_of(*old(self), *old(host))),
            list_ok(*final(self), *final(host), ListKind::Int),
            other_lists_kept(*final(host), *old(host), old(self).addr),
            final(host).wf() == old(host).wf(),
    {
        match self.pop_cell(host, Ghost(ListKind::Int)) {
            Some(ListCell::Int(v)) => Some(v),
            _ => None,
        }
    }

    /// Removes and returns the last object identifier, truncating the list by
    /// one.
    pub fn pop_oid(&mut self, host: &mut Host) -> (r: Option<Oid>)
        requires
            list_ok(*old(self), *old(host), ListKind::Oid),
        ensures
            r == as_oid(popped(cells_of(*old(self), *old(host)))),
            cells_of(*old(self), *old(host)).len() == 0 ==> *final(self) == *old(self) && *final(host)
                == *old(host),
            cells_of(*final(self), *final(host)) == pop_rest(cells_of(*old(self), *old(host))),
            list_ok(*final(self), *final(host), ListKind::Oid),
            other_lists_kept(*final(host), *old(host), old(self).addr),
            final(host).wf() == old(host).wf(),
    {
        match self.pop_cell(host, Ghost(ListKind::Oid)) {
            Some(ListCell::Oid(v)) => Some(v),
            _ => None,
        }
    }

    /// Replaces the pointer at `i`, if in bounds, and returns the one it held.
    pub fn replace_ptr<T>(&mut self, host: &mut Host, i: i32, with: PgPtr<T>) -> (r: Option<PgPtr<T>>)
        requires
            list_ok(*old(self), *old(host), ListKind::Ptr),
        ensures
            handle_addr(r) == as_ptr(nth(cells_of(*old(self), *old(host)), i as int)),
            *final(self) == *old(self),
            cells_of(*final(self), *final(host)) == if 0 <= i < cells_of(*old(self), *old(host)).len() {
                cells_of(*old(self), *old(host)).update(i as int, ListCell::Ptr(with.addr))
            } else {
                cells_of(*old(self), *old(host))
            },
            list_ok(*final(self), *final(host), ListKind::Ptr),
            other_lists_kept(*final(host), *old(host), old(self).addr),
    {
        match self.replace_cell(host, i, ListCell::Ptr(with.addr), Ghost(ListKind::Ptr)) {
            Some(ListCell::Ptr(a)) => Some(PgPtr::from_raw(a)),
            _ => None,
        }
    }

    /// Replaces the integer at `i`, if in bounds, and returns the one it held.
    pub fn replace_i32(&mut self, host: &mut Host, i: i32, with: i32) -> (r: Option<i32>)
        requires
            list_ok(*old(self), *old(host), ListKind::Int),
        ensures
            r == as_i32(nth(cells_of(*old(self), *old(host)), i as int)),
            *final(self) == *old(self),
            cells_of(*final(self), *final(host)) == if 0 <= i < cells_of(*old(self), *old(host)).len() {
                cells_of(*old(self), *old(host)).update(i as int, ListCell::Int(with))
            } else {
                cells_of(*old(self), *old(host))
            },
            list_ok(*final(self), *final(host), ListKind::Int),
            other_lists_kept(*final(host), *old(host), old(self).addr),
    {
        match self.replace_cell(host, i, ListCell::Int(with), Ghost(ListKind::Int)) {
            Some(ListCell::Int(v)) => Some(v),
            _ => None,
        }
    }

    /// Replaces the object identifier at `i`, if in bounds, and returns the one
    /// it held.
    pub fn replace_oid(&mut self, host: &mut Host, i: i32, with: Oid) -> (r: Option<Oid>)
        requires
            list_ok(*old(self), *old(host), ListKind::Oid),
        ensures
            r == as_oid(nth(cells_of(*old(self), *old(host)), i as int)),
            *final(self) == *old(self),
            cells_of(*final(self), *final(host)) == if 0 <= i < cells_of(*old(self), *old(host)).len() {
                cells_of(*old(self), *old(host)).update(i as int, ListCell::Oid(with))
            } else {
                cells_of(*old(self), *old(host))
            },
            list_ok(*final(self), *final(host), ListKind::Oid),
            other_lists_kept(*final(host), *old(host), old(self).addr),
    {
        match self.replace_cell(host, i, ListCell::Oid(with), Ghost(ListKind::Oid)) {
            Some(ListCell::Oid(v)) => Some(v),
            _ => None,
        }
    }

    /// A fresh traversal of the pointers, from the first.
    pub fn iter_ptr<T>(&self) -> (r: ListIteratorPtr<T>)
        ensures
            r.list == *self,
            r.pos == 0,
    {
        ListIteratorPtr { list: *self, pos: 0, marker: core::marker::PhantomData }
    }

    /// A fresh traversal of the integers, from the first.
    pub fn iter_int(&self) -> (r: ListIteratorInt)
        ensures
            r.list == *self,
            r.pos == 0,
    {
        ListIteratorInt { list: *self, pos: 0 }
    }

    /// A fresh traversal of the object identifiers, from the first.
    pub fn iter_oid(&self) -> (r: ListIteratorOid)
        ensures
            r.list == *self,
            r.pos == 0,
    {
        ListIteratorOid { list: *self, pos: 0 }
    }
}

/// A position in a list of pointers; each step reads the element there
/// afresh.
pub struct ListIteratorPtr<T> {
    pub list: PgPtr<List>,
    pub pos: i32,
    pub marker: core::marker::PhantomData<T>,
}

/// A position in a list of integers; each step reads the element there afresh.
pub struct ListIteratorInt {
    pub list: PgPtr<List>,
    pub pos: i32,
}

/// A position in a list of object identifiers; each step reads the element
/// there afresh.
pub struct ListIteratorOid {
    pub list: PgPtr<List>,
    pub pos: i32,
}

impl<T> ListIteratorPtr<T> {
    /// The element at the position, after which the position moves on; `None`
    /// once the list is exhausted.
    pub fn next(&mut self, host: &Host) -> (r: Option<PgPtr<T>>)
        requires
            list_ok(old(self).list, *host, ListKind::Ptr),
        ensures
            handle_addr(r) == as_ptr(nth(cells_of(old(self).list, *host), old(self).pos as int)),
            final(self).list == old(self).list,
            final(self).pos == if r is Some { old(self).pos + 1 } else { old(self).pos as int },
    {
        let r = self.list.get_ptr(host, self.pos);
        if r.is_some() {
            self.pos = self.pos + 1;
        }
        r
    }
}

impl ListIteratorInt {
    /// The element at the position, after which the position moves on; `None`
    /// once the list is exhausted.
    pub fn next(&mut self, host: &Host) -> (r: Option<i32>)
        requires
            list_ok(old(self).list, *host, ListKind::Int),
        ensures
            r == as_i32(nth(cells_of(old(self).list, *host), old(self).pos as int)),
            final(self).list == old(self).list,
            final(self).pos == if r is Some { old(self).pos + 1 } else { old(self).pos as int },
    {
        let r = self.list.get_i32(host, self.pos);
        if r.is_some() {
            self.pos = self.pos + 1;
        }
        r
    }
}

impl ListIteratorOid {
    /// The element at the position, after which the position moves on; `None`
    /// once the list is exhausted.
    pub fn next(&mut self, host: &Host) -> (r: Option<Oid>)
        requires
            list_ok(old(self).list, *host, ListKind::Oid),
        ensures
            r == as_oid(nth(cells_of(old(self).list, *host), old(self).pos as int)),
            final(self).list == old(self).list,
            final(self).pos == if r is Some { old(self).pos + 1 } else { old(self).pos as int },
    {
        let r = self.list.get_oid(host, self.pos);
        if r.is_some() {
            self.pos = self.pos + 1;
        }
        r
    }
}

impl ListIteratorInt {
    /// Runs the traversal to its end and gathers what it yields: the integers
    /// from the position on, in order.
    pub fn collect(self, host: &Host) -> (r: Vec<i32>)
        requires
            list_ok(self.list, *host, ListKind::Int),
        ensures
            r@ == if 0 <= self.pos <= cells_of(self.list, *host).len() {
                ints(cells_of(self.list, *host)).subrange(self.pos as int, cells_of(self.list, *host).len() as int)
            } else {
                Seq::empty()
            },
    {
        let ghost cells = cells_of(self.list, *host);
        let ghost start = self.pos as int;
        let mut it = self;
        let mut out: Vec<i32> = Vec::new();
        if it.pos < 0 || it.pos > it.list.len(host) {
            return out;
        }
        loop
            invariant
                it.list == self.list,
                list_ok(it.list, *host, ListKind::Int),
                cells == cells_of(it.list, *host),
                0 <= start <= it.pos <= cells.len(),
                out@ == ints(cells).subrange(start, it.pos as int),
            ensures
                out@ == ints(cells).subrange(start, cells.len() as int),
            decreases cells.len() - it.pos,
        {
            let ghost pos = it.pos as int;
            match it.next(host) {
                Some(v) => {
                    out.push(v);
                    assert(out@ =~= ints(cells).subrange(start, pos + 1));
                },
                None => {
                    break;
                },
            }
        }
        out
    }
}

impl ListIteratorOid {
    /// Runs the traversal to its end and gathers what it yields: the object
    /// identifiers from the position on, in order.
    pub fn collect(self, host: &Host) -> (r: Vec<Oid>)
        requires
            list_ok(self.list, *host, ListKind::Oid),
        ensures
            r@ == if 0 <= self.pos <= cells_of(self.list, *host).len() {
                oids(cells_of(self.list, *host)).subrange(self.pos as int, cells_of(self.list, *host).len() as int)
            } else {
                Seq::empty()
            },
    {
        let ghost cells = cells_of(self.list, *host);
        let ghost start = self.pos as int;
        let mut it = self;
        let mut out: Vec<Oid> = Vec::new();
        if it.pos < 0 || it.pos > it.list.len(host) {
            return out;
        }
        loop
            invariant
                it.list == self.list,
                list_ok(it.list, *host, ListKind::Oid),
                cells == cells_of(it.list, *host),
                0 <= start <= it.pos <= cells.len(),
                out@ == oids(cells).subrange(start, it.pos as int),
            ensures
                out@ == oids(cells).subrange(start, cells.len() as int),
            decreases cells.len() - it.pos,
        {
            let ghost pos = it.pos as int;
            match it.next(host) {
                Some(v) => {
                    out.push(v);
                    assert(out@ =~= oids(cells).subrange(start, pos + 1));
                },
                None => {
                    break;
                },
            }
        }
        out
    }
}

/// Popping right after pushing `x` gives back `x` and leaves the list as it
/// was before the push.
pub proof fn lemma_push_then_pop(cells: Seq<ListCell>, x: i32)
    ensures
        as_i32(popped(cells.push(ListCell::Int(x)))) == Some(x),
        pop_rest(cells.push(ListCell::Int(x))) == cells,
{
    assert(cells.push(ListCell::Int(x)).drop_last() =~= cells);
}

/// Popping an empty list gives nothing and changes nothing; popping any other
/// list shortens it by exactly one.
pub proof fn lemma_pop_length(cells: Seq<ListCell>)
    ensures
        cells.len() == 0 ==> popped(cells) is None && pop_rest(cells).len() == 0,
        cells.len() > 0 ==> pop_rest(cells).len() == cells.len() - 1,
{
}

/// Two traversals started on the same list are in the same state, so each
/// step of one yields what the same step of the other yields.
pub proof fn lemma_traversal_restartable(p: PgPtr<List>, a: ListIteratorInt, b: ListIteratorInt)
    requires
        a.list == p,
        b.list == p,
        a.pos == 0,
        b.pos == 0,
    ensures
        a == b,
{
}

} // verus!
