use vstd::prelude::*;

use crate::bridge::{BridgeError, ThingExternal, ThingTable, ThingVtable};
use crate::thing::Thing;

verus! {

/// How the foreign host's call that borrowed a handle ended.
#[derive(Clone, Copy, Debug, PartialEq, Eq, Structural)]
pub enum HostOutcome {
    Returned,
    Failed,
}

/// What the entry point did once the host was done with the object.
pub struct EntryEnd<T> {
    /// The reclaimed payload, or why the handle could not be reclaimed.
    pub reclaimed: Result<T, BridgeError>,
    /// Whether the host reported a failure, to be shown as a diagnostic.
    pub host_failed: bool,
}

/// First half of the entry point: takes back ownership of `thing`, reads its number
/// on the native side and hands out the handle to lend to the host. A refused proxy
/// is reported, and the table is left as it was.
pub fn enter<T: Thing>(table: &mut ThingTable<T>, thing: ThingExternal) -> (r: Result<(i32, u64), BridgeError>)
    requires
        old(table).wf(),
    ensures
        final(table).wf(),
        match old(table)@.refusal(thing.vtable_spec(), thing.raw_spec()) {
            Some(e) => r == Err::<(i32, u64), BridgeError>(e) && final(table)@ == old(table)@,
            None => {
                &&& r == Ok::<(i32, u64), BridgeError>(
                    (old(table)@.payload(thing.raw_spec()).number_spec(), thing.raw_spec()),
                )
                &&& final(table)@ == old(table)@.with_payload(
                    thing.raw_spec(),
                    final(table)@.payload(thing.raw_spec()),
                )
                &&& final(table)@.refusal(thing.vtable_spec(), thing.raw_spec()) is None
            },
        },
{
    match thing.number(table) {
        Ok(n) => Ok((n, thing.into_raw())),
        Err(e) => Err(e),
    }
}

/// Second half of the entry point: once the host is done with the handle `raw`,
/// the object is reclaimed through the descriptor, whether the host returned or
/// failed; a failure is only passed on for reporting.
pub fn conclude<T: Thing>(
    table: &mut ThingTable<T>,
    vtable: ThingVtable,
    raw: u64,
    host: HostOutcome,
) -> (r: EntryEnd<T>)
    requires
        old(table).wf(),
    ensures
        final(table).wf(),
        r.host_failed == (host == HostOutcome::Failed),
        match old(table)@.refusal(vtable, raw) {
            Some(e) => r.reclaimed == Err::<T, BridgeError>(e) && final(table)@ == old(table)@,
            None => {
                &&& r.reclaimed == Ok::<T, BridgeError>(old(table)@.payload(raw))
                &&& final(table)@ == old(table)@.reclaimed(raw)
            },
        },
{
    let thing = ThingExternal::from_raw(vtable, raw);
    let reclaimed = thing.destroy(table);
    let host_failed = match host {
        HostOutcome::Returned => false,
        HostOutcome::Failed => true,
    };
    EntryEnd { reclaimed, host_failed }
}

} // verus!
