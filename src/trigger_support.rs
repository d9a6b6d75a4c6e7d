//! Helpers that decode the event word handed to a trigger function.
use vstd::prelude::*;
use crate::host::Host;
use crate::nodes::{is_a, tag_of, FunctionCallInfoBaseData, NodeTag};
use crate::pgptr::PgPtr;

verus! {

/// Mask of the bits that hold the operation that fired the trigger.
pub const TRIGGER_EVENT_OPMASK: i32 = 3;

pub const TRIGGER_EVENT_INSERT: i32 = 0;

pub const TRIGGER_EVENT_DELETE: i32 = 1;

pub const TRIGGER_EVENT_UPDATE: i32 = 2;

pub const TRIGGER_EVENT_TRUNCATE: i32 = 3;

/// Set when the trigger fires once per row rather than once per statement.
pub const TRIGGER_EVENT_ROW: i32 = 4;

pub const TRIGGER_EVENT_BEFORE: i32 = 8;

/// Mask of the bits that hold when the trigger fires.
pub const TRIGGER_EVENT_TIMINGMASK: i32 = 24;

pub const TRIGGER_EVENT_AFTER: i32 = 0;

pub const TRIGGER_EVENT_INSTEAD: i32 = 16;

/// The operation bits of an event word.
pub open spec fn event_operation(event: i32) -> i32 {
    event & TRIGGER_EVENT_OPMASK
}

/// The timing bits of an event word.
pub open spec fn event_timing(event: i32) -> i32 {
    event & TRIGGER_EVENT_TIMINGMASK
}

pub open spec fn event_for_row(event: i32) -> bool {
    event & TRIGGER_EVENT_ROW != 0
}

pub fn trigger_fired_by_insert(event: i32) -> (r: bool)
    ensures
        r == (event_operation(event) == TRIGGER_EVENT_INSERT),
{
    event & TRIGGER_EVENT_OPMASK == TRIGGER_EVENT_INSERT
}

pub fn trigger_fired_by_delete(event: i32) -> (r: bool)
    ensures
        r == (event_operation(event) == TRIGGER_EVENT_DELETE),
{
    event & TRIGGER_EVENT_OPMASK == TRIGGER_EVENT_DELETE
}

pub fn trigger_fired_by_update(event: i32) -> (r: bool)
    ensures
        r == (event_operation(event) == TRIGGER_EVENT_UPDATE),
{
    event & TRIGGER_EVENT_OPMASK == TRIGGER_EVENT_UPDATE
}

pub fn trigger_fired_by_truncate(event: i32) -> (r: bool)
    ensures
        r == (event_operation(event) == TRIGGER_EVENT_TRUNCATE),
{
    event & TRIGGER_EVENT_OPMASK == TRIGGER_EVENT_TRUNCATE
}

pub fn trigger_fired_for_row(event: i32) -> (r: bool)
    ensures
        r == event_for_row(event),
{
    event & TRIGGER_EVENT_ROW != 0
}

pub fn trigger_fired_for_statement(event: i32) -> (r: bool)
    ensures
        r == !event_for_row(event),
{
    !trigger_fired_for_row(event)
}

pub fn trigger_fired_before(event: i32) -> (r: bool)
    ensures
        r == (event_timing(event) == TRIGGER_EVENT_BEFORE),
{
    event & TRIGGER_EVENT_TIMINGMASK == TRIGGER_EVENT_BEFORE
}

pub fn trigger_fired_after(event: i32) -> (r: bool)
    ensures
        r == (event_timing(event) == TRIGGER_EVENT_AFTER),
{
    event & TRIGGER_EVENT_TIMINGMASK == TRIGGER_EVENT_AFTER
}

pub fn trigger_fired_instead(event: i32) -> (r: bool)
    ensures
        r == (event_timing(event) == TRIGGER_EVENT_INSTEAD),
{
    event & TRIGGER_EVENT_TIMINGMASK == TRIGGER_EVENT_INSTEAD
}

/// Whether the host invoked the function as a trigger.
pub fn called_as_trigger(host: &Host, fcinfo: PgPtr<FunctionCallInfoBaseData>) -> (r: bool)
    requires
        host.calls.contains(fcinfo),
        host.calls.at(fcinfo).context.addr == 0 || host.nodes.contains(host.calls.at(fcinfo).context),
    ensures
        r == (tag_of(*host, host.calls.at(fcinfo).context) == Some(NodeTag::TriggerData)),
{
    let context = fcinfo.deref(&host.calls).context;
    !context.is_null() && is_a(host, context, NodeTag::TriggerData)
}

} // verus!
