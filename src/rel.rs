//! Guarded handles to open relations, which close themselves the way they
//! were opened.
use vstd::prelude::*;
use crate::host::Host;
use crate::memcxt::HostError;
use crate::pgptr::{Datum, Oid, PgPtr};
use crate::relation_data::RelationData;

verus! {

/// A lock strength of the host's lock manager.
pub type LockMode = i32;

pub const ACCESS_SHARE_LOCK: LockMode = 1;

/// The type identifier of relation-name values.
pub const REGCLASSOID: Oid = 2205;

/// A call into the host's relation routines.
#[derive(Debug, Clone, Copy, PartialEq, Eq)]
pub enum RelationCall {
    /// A relation was opened: with a lock of the given mode, or under a lock
    /// that the caller already holds.
    Open { oid: Oid, lockmode: Option<LockMode> },
    /// The relation at the address was closed, its lock kept.
    RelationClose(usize),
    /// The relation at the address was closed and its lock of the given mode
    /// released.
    RelationCloseWithLock(usize, LockMode),
}

/// Whether `addr` is the first relation with identifier `oid`, or 0 when
/// there is none.
pub open spec fn first_with_oid(rels: Seq<RelationData>, oid: Oid, addr: usize) -> bool {
    if addr == 0 {
        forall|i: int| 0 <= i < rels.len() ==> (#[trigger] rels[i]).rd_id != oid
    } else {
        &&& 1 <= addr <= rels.len()
        &&& rels[addr - 1].rd_id == oid
        &&& forall|i: int| 0 <= i < addr - 1 ==> (#[trigger] rels[i]).rd_id != oid
    }
}

pub open spec fn has_oid(rels: Seq<RelationData>, oid: Oid) -> bool {
    exists|i: int| 0 <= i < rels.len() && (#[trigger] rels[i]).rd_id == oid
}

/// The identifier of the first relation named `name`.
pub open spec fn oid_by_name(rels: Seq<RelationData>, name: Seq<char>) -> Option<Oid>
    decreases rels.len(),
{
    if rels.len() == 0 {
        None
    } else if rels[0].relname@ == name {
        Some(rels[0].rd_id)
    } else {
        oid_by_name(rels.drop_first(), name)
    }
}

/// The identifiers of the indexes of relation `oid`, leaving out the invalid
/// identifier 0.
pub open spec fn index_oids(rels: Seq<RelationData>, oid: Oid) -> Seq<Oid>
    decreases rels.len(),
{
    if rels.len() == 0 {
        Seq::empty()
    } else {
        let rest = index_oids(rels.drop_last(), oid);
        if rels.last().rd_index == Some(oid) && rels.last().rd_id != 0 {
            rest.push(rels.last().rd_id)
        } else {
            rest
        }
    }
}

/// The opening, with locks of the given mode, of each relation in turn.
pub open spec fn opened_with(oids: Seq<Oid>, lockmode: LockMode) -> Seq<RelationCall> {
    oids.map_values(|oid: Oid| RelationCall::Open { oid, lockmode: Some(lockmode) })
}

/// The address of the first relation with identifier `oid`, or 0.
fn find_relation(host: &Host, oid: Oid) -> (r: usize)
    ensures
        first_with_oid(host.relations.slots@, oid, r),
{
    let mut i: usize = 0;
    while i < host.relations.slots.len()
        invariant
            i <= host.relations.slots@.len(),
            forall|j: int| 0 <= j < i ==> (#[trigger] host.relations.slots@[j]).rd_id != oid,
        decreases host.relations.slots@.len() - i,
    {
        if host.relations.slots[i].rd_id == oid {
            return i + 1;
        }
        i += 1;
    }
    0
}

/// Opens a relation under a lock that the caller holds; null if there is no
/// such relation.
fn relation_id_get_relation(host: &mut Host, oid: Oid) -> (r: PgPtr<RelationData>)
    ensures
        first_with_oid(old(host).relations.slots@, oid, r.addr),
        final(host).relation_calls@ == if r.addr == 0 {
            old(host).relation_calls@
        } else {
            old(host).relation_calls@.push(RelationCall::Open { oid, lockmode: None })
        },
        *final(host) == (Host { relation_calls: final(host).relation_calls, ..*old(host) }),
{
    let addr = find_relation(host, oid);
    if addr != 0 {
        host.relation_calls.push(RelationCall::Open { oid, lockmode: None });
    }
    PgPtr::from_raw(addr)
}

/// Opens a relation, taking a lock of the given mode; the host raises an
/// error when there is no such relation.
fn relation_open(host: &mut Host, oid: Oid, lockmode: LockMode) -> (r: Result<PgPtr<RelationData>, HostError>)
    ensures
        r is Ok <==> has_oid(old(host).relations.slots@, oid),
        r matches Ok(p) ==> first_with_oid(old(host).relations.slots@, oid, p.addr),
        final(host).relation_calls@ == if r is Ok {
            old(host).relation_calls@.push(RelationCall::Open { oid, lockmode: Some(lockmode) })
        } else {
            old(host).relation_calls@
        },
        *final(host) == (Host { relation_calls: final(host).relation_calls, ..*old(host) }),
{
    let addr = find_relation(host, oid);
    if addr == 0 {
        Err(HostError { message: "could not open relation".to_owned() })
    } else {
        host.relation_calls.push(RelationCall::Open { oid, lockmode: Some(lockmode) });
        Ok(PgPtr::from_raw(addr))
    }
}

/// The identifier of the first relation with the given name.
fn to_regclass(host: &Host, name: &str) -> (r: Option<Oid>)
    ensures
        r == oid_by_name(host.relations.slots@, name@),
{
    let rels = &host.relations.slots;
    let wanted = name.to_owned();
    assert(rels@.subrange(0, rels@.len() as int) =~= rels@);
    let mut i: usize = 0;
    while i < rels.len()
        invariant
            i <= rels@.len(),
            wanted@ == name@,
            rels@ == host.relations.slots@,
            oid_by_name(rels@, name@) == oid_by_name(rels@.subrange(i as int, rels@.len() as int), name@),
        decreases rels@.len() - i,
    {
        let ghost rest = rels@.subrange(i as int, rels@.len() as int);
        assert(rest.drop_first() =~= rels@.subrange(i + 1, rels@.len() as int));
        assert(rest[0] == rels@[i as int]);
        if rels[i].relname == wanted {
            return Some(rels[i].rd_id);
        }
        i += 1;
    }
    None
}

proof fn lemma_named_oid_exists(rels: Seq<RelationData>, name: Seq<char>)
    requires
        oid_by_name(rels, name) is Some,
    ensures
        has_oid(rels, oid_by_name(rels, name)->0),
    decreases rels.len(),
{
    if rels[0].relname@ != name {
        lemma_named_oid_exists(rels.drop_first(), name);
        let i = choose|i: int| 0 <= i < rels.drop_first().len() && (#[trigger] rels.drop_first()[i]).rd_id == oid_by_name(rels, name)->0;
        assert(rels[i + 1].rd_id == oid_by_name(rels, name)->0);
    } else {
        assert(rels[0].rd_id == oid_by_name(rels, name)->0);
    }
}

/// An open relation, closed by [`PgRelation::close`]: with its lock released
/// when it was opened with one, without otherwise.
pub struct PgRelation {
    pub boxed: PgPtr<RelationData>,
    pub lockmode: Option<LockMode>,
}

impl PgRelation {
    /// Wraps a relation that the caller opened and keeps locked.
    pub fn from(r: PgPtr<RelationData>) -> (rel: PgRelation)
        ensures
            rel.boxed == r,
            rel.lockmode is None,
    {
        PgRelation { boxed: r, lockmode: None }
    }

    /// Opens a relation that the caller already holds a lock on. The relation
    /// must exist.
    pub fn open(host: &mut Host, oid: Oid) -> (rel: PgRelation)
        requires
            has_oid(old(host).relations.slots@, oid),
        ensures
            first_with_oid(old(host).relations.slots@, oid, rel.boxed.addr),
            rel.boxed.addr != 0,
            rel.lockmode is None,
            final(host).relation_calls@ == old(host).relation_calls@.push(RelationCall::Open { oid, lockmode: None }),
            *final(host) == (Host { relation_calls: final(host).relation_calls, ..*old(host) }),
    {
        let rel = relation_id_get_relation(host, oid);
        PgRelation { boxed: rel, lockmode: None }
    }

    /// Opens a relation, taking a lock of the given mode; a fault when there
    /// is no such relation.
    pub fn with_lock(host: &mut Host, oid: Oid, lockmode: LockMode) -> (r: Result<PgRelation, HostError>)
        ensures
            r is Ok <==> has_oid(old(host).relations.slots@, oid),
            r matches Ok(rel) ==> first_with_oid(old(host).relations.slots@, oid, rel.boxed.addr)
                && rel.lockmode == Some(lockmode),
            final(host).relation_calls@ == if r is Ok {
                old(host).relation_calls@.push(RelationCall::Open { oid, lockmode: Some(lockmode) })
            } else {
                old(host).relation_calls@
            },
            *final(host) == (Host { relation_calls: final(host).relation_calls, ..*old(host) }),
    {
        match relation_open(host, oid, lockmode) {
            Ok(p) => Ok(PgRelation { boxed: p, lockmode: Some(lockmode) }),
            Err(e) => Err(e),
        }
    }

    /// Opens the relation with the given name, under a lock that the caller
    /// holds.
    pub fn open_with_name(host: &mut Host, relname: &str) -> (r: Result<PgRelation, &'static str>)
        ensures
            r is Ok <==> oid_by_name(old(host).relations.slots@, relname@) is Some,
            oid_by_name(old(host).relations.slots@, relname@) is None ==> r == Err::<PgRelation, &'static str>(
                "no such relation",
            ),
            r matches Ok(rel) ==> rel.lockmode is None && first_with_oid(
                old(host).relations.slots@,
                oid_by_name(old(host).relations.slots@, relname@)->0,
                rel.boxed.addr,
            ),
            final(host).relation_calls@ == match oid_by_name(old(host).relations.slots@, relname@) {
                Some(oid) => old(host).relation_calls@.push(RelationCall::Open { oid, lockmode: None }),
                None => old(host).relation_calls@,
            },
            *final(host) == (Host { relation_calls: final(host).relation_calls, ..*old(host) }),
    {
        match to_regclass(host, relname) {
            Some(oid) => {
                proof {
                    lemma_named_oid_exists(host.relations.slots@, relname@);
                }
                Ok(PgRelation::open(host, oid))
            },
            None => Err("no such relation"),
        }
    }

    /// Opens the relation with the given name, taking a share lock.
    pub fn open_with_name_and_share_lock(host: &mut Host, relname: &str) -> (r: Result<PgRelation, &'static str>)
        ensures
            r is Ok <==> oid_by_name(old(host).relations.slots@, relname@) is Some,
            oid_by_name(old(host).relations.slots@, relname@) is None ==> r == Err::<PgRelation, &'static str>(
                "no such relation",
            ),
            r matches Ok(rel) ==> rel.lockmode == Some(ACCESS_SHARE_LOCK) && first_with_oid(
                old(host).relations.slots@,
                oid_by_name(old(host).relations.slots@, relname@)->0,
                rel.boxed.addr,
            ),
            final(host).relation_calls@ == match oid_by_name(old(host).relations.slots@, relname@) {
                Some(oid) => old(host).relation_calls@.push(
                    RelationCall::Open { oid, lockmode: Some(ACCESS_SHARE_LOCK) },
                ),
                None => old(host).relation_calls@,
            },
            *final(host) == (Host { relation_calls: final(host).relation_calls, ..*old(host) }),
    {
        match to_regclass(host, relname) {
            Some(oid) => {
                proof {
                    lemma_named_oid_exists(host.relations.slots@, relname@);
                }
                match PgRelation::with_lock(host, oid, ACCESS_SHARE_LOCK) {
                    Ok(rel) => Ok(rel),
                    Err(_) => Err("no such relation"),
                }
            },
            None => Err("no such relation"),
        }
    }

    /// For an index, the relation it indexes, opened under the caller's lock;
    /// nothing for any other relation, or when the catalog lacks it.
    pub fn heap_relation(&self, host: &mut Host) -> (r: Option<PgPtr<RelationData>>)
        requires
            old(host).relations.contains(self.boxed),
        ensures
            match old(host).relations.at(self.boxed).rd_index {
                None => r is None && *final(host) == *old(host),
                Some(heap) => match r {
                    Some(p) => first_with_oid(old(host).relations.slots@, heap, p.addr) && p.addr != 0
                        && final(host).relation_calls@ == old(host).relation_calls@.push(
                        RelationCall::Open { oid: heap, lockmode: None },
                    ),
                    None => !has_oid(old(host).relations.slots@, heap) && final(host).relation_calls@
                        == old(host).relation_calls@,
                },
            },
            *final(host) == (Host { relation_calls: final(host).relation_calls, ..*old(host) }),
    {
        let index = self.boxed.deref(&host.relations).rd_index;
        match index {
            None => None,
            Some(heap) => {
                let p = relation_id_get_relation(host, heap);
                if p.is_null() {
                    None
                } else {
                    Some(p)
                }
            },
        }
    }

    /// The indexes of the relation, each opened with a lock of the given
    /// mode.
    pub fn indices(&self, host: &mut Host, lockmode: LockMode) -> (r: Vec<PgRelation>)
        requires
            old(host).relations.contains(self.boxed),
        ensures
            r@.len() == index_oids(old(host).relations.slots@, old(host).relations.at(self.boxed).rd_id).len(),
            forall|i: int| 0 <= i < r@.len() ==> {
                &&& (#[trigger] r@[i]).lockmode == Some(lockmode)
                &&& first_with_oid(
                    old(host).relations.slots@,
                    index_oids(old(host).relations.slots@, old(host).relations.at(self.boxed).rd_id)[i],
                    r@[i].boxed.addr,
                )
            },
            final(host).relation_calls@ == old(host).relation_calls@ + opened_with(
                index_oids(old(host).relations.slots@, old(host).relations.at(self.boxed).rd_id),
                lockmode,
            ),
            *final(host) == (Host { relation_calls: final(host).relation_calls, ..*old(host) }),
    {
        let oid = self.boxed.deref(&host.relations).rd_id;
        let ghost calls = host.relation_calls@;
        let ghost rels = host.relations.slots@;
        let mut out: Vec<PgRelation> = Vec::new();
        let mut i: usize = 0;
        while i < host.relations.slots.len()
            invariant
                i <= rels.len(),
                *host == (Host { relation_calls: host.relation_calls, ..*old(host) }),
                host.relations.slots@ == rels,
                calls == old(host).relation_calls@,
                host.relation_calls@ == calls + opened_with(index_oids(rels.take(i as int), oid), lockmode),
                out@.len() == index_oids(rels.take(i as int), oid).len(),
                forall|j: int| 0 <= j < out@.len() ==> {
                    &&& (#[trigger] out@[j]).lockmode == Some(lockmode)
                    &&& first_with_oid(rels, index_oids(rels.take(i as int), oid)[j], out@[j].boxed.addr)
                },
            decreases rels.len() - i,
        {
            let ghost before = index_oids(rels.take(i as int), oid);
            assert(rels.take(i + 1).drop_last() =~= rels.take(i as int));
            let candidate = &host.relations.slots[i];
            let matches_index = match candidate.rd_index {
                Some(of) => of == oid,
                None => false,
            };
            if matches_index && candidate.rd_id != 0 {
                let index_oid = candidate.rd_id;
                assert(rels[i as int].rd_id == index_oid);
                match PgRelation::with_lock(host, index_oid, lockmode) {
                    Ok(rel) => {
                        out.push(rel);
                    },
                    Err(_) => {},
                }
                assert(index_oids(rels.take(i + 1), oid) == before.push(index_oid));
                assert(opened_with(before.push(index_oid), lockmode) =~= opened_with(before, lockmode).push(
                    RelationCall::Open { oid: index_oid, lockmode: Some(lockmode) },
                ));
            }
            i += 1;
        }
        assert(rels.take(rels.len() as int) =~= rels);
        out
    }

    /// Opens the same relation again with a share lock: the handle itself is
    /// not duplicated.
    pub fn clone(&self, host: &mut Host) -> (r: Result<PgRelation, HostError>)
        requires
            old(host).relations.contains(self.boxed),
        ensures
            r is Ok,
            r matches Ok(rel) ==> rel.lockmode == Some(ACCESS_SHARE_LOCK) && first_with_oid(
                old(host).relations.slots@,
                old(host).relations.at(self.boxed).rd_id,
                rel.boxed.addr,
            ),
            final(host).relation_calls@ == old(host).relation_calls@.push(
                RelationCall::Open { oid: old(host).relations.at(self.boxed).rd_id, lockmode: Some(ACCESS_SHARE_LOCK) },
            ),
            *final(host) == (Host { relation_calls: final(host).relation_calls, ..*old(host) }),
    {
        let oid = self.boxed.deref(&host.relations).rd_id;
        assert(host.relations.slots@[self.boxed.addr - 1].rd_id == oid);
        PgRelation::with_lock(host, oid, ACCESS_SHARE_LOCK)
    }

    /// A relation from a datum that holds its identifier, opened with a share
    /// lock; nothing for a null datum.
    pub fn from_datum(host: &mut Host, datum: Datum, is_null: bool, typoid: Oid) -> (r: Result<Option<PgRelation>, HostError>)
        ensures
            is_null ==> r == Ok::<Option<PgRelation>, HostError>(None) && *final(host) == *old(host),
            !is_null ==> (r is Ok <==> has_oid(old(host).relations.slots@, datum as Oid)),
            !is_null && has_oid(old(host).relations.slots@, datum as Oid) ==> r matches Ok(Some(_)),
            final(host).relation_calls@ == if !is_null && r is Ok {
                old(host).relation_calls@.push(
                    RelationCall::Open { oid: datum as Oid, lockmode: Some(ACCESS_SHARE_LOCK) },
                )
            } else {
                old(host).relation_calls@
            },
            r matches Ok(Some(rel)) ==> !is_null && rel.lockmode == Some(ACCESS_SHARE_LOCK)
                && first_with_oid(old(host).relations.slots@, datum as Oid, rel.boxed.addr),
            *final(host) == (Host { relation_calls: final(host).relation_calls, ..*old(host) }),
    {
        if is_null {
            Ok(None)
        } else {
            match PgRelation::with_lock(host, datum as Oid, ACCESS_SHARE_LOCK) {
                Ok(rel) => Ok(Some(rel)),
                Err(e) => Err(e),
            }
        }
    }

    /// The relation's identifier as a datum; the handle is closed.
    pub fn into_datum(self, host: &mut Host) -> (r: Option<Datum>)
        requires
            old(host).relations.contains(self.boxed),
        ensures
            r == Some(old(host).relations.at(self.boxed).rd_id as Datum),
            final(host).relation_calls@ == old(host).relation_calls@.push(self.close_call()),
    {
        let oid = self.boxed.oid(host);
        self.close(host);
        Some(oid as Datum)
    }

    /// The type identifier of relation-name values.
    pub fn type_oid() -> (r: Oid)
        ensures
            r == REGCLASSOID,
    {
        REGCLASSOID
    }

    pub fn deref(&self) -> (r: &PgPtr<RelationData>)
        ensures
            *r == self.boxed,
    {
        &self.boxed
    }

    /// The call that closing this handle makes.
    pub open spec fn close_call(&self) -> RelationCall {
        match self.lockmode {
            None => RelationCall::RelationClose(self.boxed.addr),
            Some(mode) => RelationCall::RelationCloseWithLock(self.boxed.addr, mode),
        }
    }

    /// Closes the relation: releasing its lock when it was opened with one,
    /// keeping the caller's lock otherwise. Nothing happens for a null handle.
    pub fn close(self, host: &mut Host)
        ensures
            final(host).relation_calls@ == if self.boxed.addr == 0 {
                old(host).relation_calls@
            } else {
                old(host).relation_calls@.push(self.close_call())
            },
            *final(host) == (Host { relation_calls: final(host).relation_calls, ..*old(host) }),
    {
        if !self.boxed.is_null() {
            match self.lockmode {
                None => host.relation_calls.push(RelationCall::RelationClose(self.boxed.addr)),
                Some(mode) => host.relation_calls.push(RelationCall::RelationCloseWithLock(self.boxed.addr, mode)),
            }
        }
    }
}

/// A handle opened with a lock mode is closed with that lock released; one
/// opened under the caller's lock, or wrapped, is closed with the caller's lock
/// kept.
pub proof fn lemma_close_matches_open(rel: PgRelation)
    ensures
        rel.lockmode matches Some(mode) ==> rel.close_call() == RelationCall::RelationCloseWithLock(
            rel.boxed.addr,
            mode,
        ),
        rel.lockmode is None ==> rel.close_call() == RelationCall::RelationClose(rel.boxed.addr),
{
}

} // verus!
