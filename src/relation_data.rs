//! Relation descriptors of the host's catalog, and what can be read from one.
use vstd::prelude::*;
use crate::host::Host;
use crate::pgptr::{Oid, PgPtr};
use vstd::string::StringSliceAdditionalSpecFns;
use vstd::utf8::valid_utf8;

verus! {

/// The kind codes of relations.
pub const RELKIND_RELATION: i8 = 114;

pub const RELKIND_INDEX: i8 = 105;

pub const RELKIND_SEQUENCE: i8 = 83;

pub const RELKIND_TOASTVALUE: i8 = 116;

pub const RELKIND_VIEW: i8 = 118;

pub const RELKIND_MATVIEW: i8 = 109;

pub const RELKIND_COMPOSITE_TYPE: i8 = 99;

pub const RELKIND_FOREIGN_TABLE: i8 = 102;

pub const RELKIND_PARTITIONED_TABLE: i8 = 112;

/// The description of a relation's rows.
#[derive(Debug, Clone, PartialEq, Eq)]
pub struct TupleDescData {
    pub natts: i32,
}

/// A relation descriptor: its identifier, name, namespace, kind and row
/// description, and, for an index, the relation it indexes.
#[derive(Clone)]
pub struct RelationData {
    pub rd_id: Oid,
    pub relname: String,
    pub relnamespace: Oid,
    pub relkind: i8,
    pub rd_att: PgPtr<TupleDescData>,
    pub rd_index: Option<Oid>,
}

/// A fixed-size name as the host stores it, in bytes.
#[derive(Debug, Clone, PartialEq, Eq)]
pub struct NameData {
    pub data: Vec<u8>,
}

/// Relies on `std::str::from_utf8`: it succeeds exactly when the bytes are
/// valid UTF-8, and the text it gives is made of those same bytes.
#[verifier::external_body]
fn utf8_text(bytes: &[u8]) -> (r: Option<&str>)
    ensures
        r is Some <==> valid_utf8(bytes@),
        r matches Some(s) ==> s.spec_bytes() == bytes@,
{
    std::str::from_utf8(bytes).ok()
}

impl NameData {
    /// The name as text; its bytes must be valid UTF-8.
    pub fn as_str(&self) -> (r: &str)
        requires
            valid_utf8(self.data@),
        ensures
            r.spec_bytes() == self.data@,
    {
        match utf8_text(self.data.as_slice()) {
            Some(s) => s,
            None => "",
        }
    }
}

/// A namespace of the catalog.
#[derive(Debug, Clone, PartialEq, Eq)]
pub struct Namespace {
    pub oid: Oid,
    pub name: String,
}

/// The name of the first namespace with the given identifier.
pub open spec fn namespace_name(spaces: Seq<Namespace>, oid: Oid) -> Option<Seq<char>>
    decreases spaces.len(),
{
    if spaces.len() == 0 {
        None
    } else if spaces[0].oid == oid {
        Some(spaces[0].name@)
    } else {
        namespace_name(spaces.drop_first(), oid)
    }
}

/// The relation behind a handle.
pub open spec fn rel(host: Host, p: PgPtr<RelationData>) -> RelationData {
    host.relations.at(p)
}

impl PgPtr<RelationData> {
    /// The relation's name, unique only within its namespace.
    pub fn name<'a>(&self, host: &'a Host) -> (r: &'a str)
        requires
            host.relations.contains(*self),
        ensures
            r@ == rel(*host, *self).relname@,
    {
        self.deref(&host.relations).relname.as_str()
    }

    pub fn oid(&self, host: &Host) -> (r: Oid)
        requires
            host.relations.contains(*self),
        ensures
            r == rel(*host, *self).rd_id,
    {
        self.deref(&host.relations).rd_id
    }

    pub fn namespace_oid(&self, host: &Host) -> (r: Oid)
        requires
            host.relations.contains(*self),
        ensures
            r == rel(*host, *self).relnamespace,
    {
        self.deref(&host.relations).relnamespace
    }

    /// The name of the namespace that holds the relation, if the catalog has
    /// it.
    pub fn namespace<'a>(&self, host: &'a Host) -> (r: Option<&'a str>)
        requires
            host.relations.contains(*self),
        ensures
            r is Some ==> namespace_name(host.namespaces@, rel(*host, *self).relnamespace) == Some(r->0@),
            r is None ==> namespace_name(host.namespaces@, rel(*host, *self).relnamespace) is None,
    {
        let oid = self.namespace_oid(host);
        assert(host.namespaces@.subrange(0, host.namespaces@.len() as int) =~= host.namespaces@);
        let mut i: usize = 0;
        while i < host.namespaces.len()
            invariant
                i <= host.namespaces@.len(),
                oid == rel(*host, *self).relnamespace,
                namespace_name(host.namespaces@, oid) == namespace_name(host.namespaces@.subrange(i as int, host.namespaces@.len() as int), oid),
            decreases host.namespaces@.len() - i,
        {
            let ghost rest = host.namespaces@.subrange(i as int, host.namespaces@.len() as int);
            assert(rest.drop_first() =~= host.namespaces@.subrange(i + 1, host.namespaces@.len() as int));
            assert(rest[0] == host.namespaces@[i as int]);
            if host.namespaces[i].oid == oid {
                return Some(host.namespaces[i].name.as_str());
            }
            i += 1;
        }
        None
    }

    /// The handle to the description of the relation's rows.
    pub fn tupdesc<'a>(&self, host: &'a Host) -> (r: &'a PgPtr<TupleDescData>)
        requires
            host.relations.contains(*self),
        ensures
            *r == rel(*host, *self).rd_att,
    {
        &self.deref(&host.relations).rd_att
    }

    pub fn is_table(&self, host: &Host) -> (r: bool)
        requires
            host.relations.contains(*self),
        ensures
            r == (rel(*host, *self).relkind == RELKIND_RELATION),
    {
        self.deref(&host.relations).relkind == RELKIND_RELATION
    }

    pub fn is_matview(&self, host: &Host) -> (r: bool)
        requires
            host.relations.contains(*self),
        ensures
            r == (rel(*host, *self).relkind == RELKIND_MATVIEW),
    {
        self.deref(&host.relations).relkind == RELKIND_MATVIEW
    }

    pub fn is_index(&self, host: &Host) -> (r: bool)
        requires
            host.relations.contains(*self),
        ensures
            r == (rel(*host, *self).relkind == RELKIND_INDEX),
    {
        self.deref(&host.relations).relkind == RELKIND_INDEX
    }

    pub fn is_view(&self, host: &Host) -> (r: bool)
        requires
            host.relations.contains(*self),
        ensures
            r == (rel(*host, *self).relkind == RELKIND_VIEW),
    {
        self.deref(&host.relations).relkind == RELKIND_VIEW
    }

    pub fn is_sequence(&self, host: &Host) -> (r: bool)
        requires
            host.relations.contains(*self),
        ensures
            r == (rel(*host, *self).relkind == RELKIND_SEQUENCE),
    {
        self.deref(&host.relations).relkind == RELKIND_SEQUENCE
    }

    pub fn is_composite_type(&self, host: &Host) -> (r: bool)
        requires
            host.relations.contains(*self),
        ensures
            r == (rel(*host, *self).relkind == RELKIND_COMPOSITE_TYPE),
    {
        self.deref(&host.relations).relkind == RELKIND_COMPOSITE_TYPE
    }

    pub fn is_foreign_table(&self, host: &Host) -> (r: bool)
        requires
            host.relations.contains(*self),
        ensures
            r == (rel(*host, *self).relkind == RELKIND_FOREIGN_TABLE),
    {
        self.deref(&host.relations).relkind == RELKIND_FOREIGN_TABLE
    }

    pub fn is_partitioned_table(&self, host: &Host) -> (r: bool)
        requires
            host.relations.contains(*self),
        ensures
            r == (rel(*host, *self).relkind == RELKIND_PARTITIONED_TABLE),
    {
        self.deref(&host.relations).relkind == RELKIND_PARTITIONED_TABLE
    }

    pub fn is_toast_value(&self, host: &Host) -> (r: bool)
        requires
            host.relations.contains(*self),
        ensures
            r == (rel(*host, *self).relkind == RELKIND_TOASTVALUE),
    {
        self.deref(&host.relations).relkind == RELKIND_TOASTVALUE
    }
}

} // verus!
