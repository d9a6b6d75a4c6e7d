//! Tagged host nodes, and the call frame through which the host invokes a
//! function.
use vstd::prelude::*;
use crate::host::Host;
use crate::pgptr::{Datum, PgPtr};

verus! {

/// The tag that says what kind of node a record is.
#[derive(Debug, Clone, Copy, PartialEq, Eq, Structural)]
pub enum NodeTag {
    TriggerData,
    EventTriggerData,
    ReturnSetInfo,
    Other(u32),
}

/// The header shared by all nodes.
pub struct Node {
    pub type_: NodeTag,
}

/// An argument of a call: a datum, or null.
#[derive(Debug, Clone, Copy, PartialEq, Eq)]
pub struct NullableDatum {
    pub value: Datum,
    pub isnull: bool,
}

/// The frame of a call from the host: the node that gives its context, and
/// its arguments.
pub struct FunctionCallInfoBaseData {
    pub context: PgPtr<Node>,
    pub nargs: i16,
    pub args: Vec<NullableDatum>,
}

/// The tag of the node behind a handle, if the handle is not null.
pub open spec fn tag_of(host: Host, nodeptr: PgPtr<Node>) -> Option<NodeTag> {
    if nodeptr.addr == 0 {
        None
    } else {
        Some(host.nodes.at(nodeptr).type_)
    }
}

/// Whether the handle reaches a node with the given tag; false when null.
pub fn is_a(host: &Host, nodeptr: PgPtr<Node>, tag: NodeTag) -> (r: bool)
    requires
        nodeptr.addr == 0 || host.nodes.contains(nodeptr),
    ensures
        r == (tag_of(*host, nodeptr) == Some(tag)),
{
    !nodeptr.is_null() && nodeptr.deref(&host.nodes).type_ == tag
}

impl PgPtr<FunctionCallInfoBaseData> {
    /// The `i`-th argument, unless `i` is out of range or the argument is
    /// null.
    pub fn get_arg_datum(&self, host: &Host, i: i16) -> (r: Option<Datum>)
        requires
            host.calls.contains(*self),
            0 <= host.calls.at(*self).nargs <= host.calls.at(*self).args@.len(),
        ensures
            r == if 0 <= i < host.calls.at(*self).nargs && !host.calls.at(*self).args@[i as int].isnull {
                Some(host.calls.at(*self).args@[i as int].value)
            } else {
                None
            },
    {
        let call = self.deref(&host.calls);
        if i < 0 || i >= call.nargs {
            None
        } else {
            let nd = &call.args[i as usize];
            if nd.isnull {
                None
            } else {
                Some(nd.value)
            }
        }
    }
}

} // verus!
