use vstd::prelude::*;

use crate::bridge::{BridgeError, TableModel, ThingVtable};
use crate::thing::Thing;

verus! {

/// Wrapping a payload issues a handle that the new state accepts through its
/// descriptor, and dispatch on that handle reaches the payload's own `number`.
pub proof fn lemma_round_trip<T: Thing>(m: TableModel<T>, payload: T)
    requires
        m.wf(),
        m.slots.len() < u64::MAX,
    ensures
        ({
            let w = m.wrapped(payload);
            let raw = m.slots.len() as u64;
            &&& w.wf()
            &&& w.vtable is Some
            &&& w.refusal(w.vtable->0, raw) is None
            &&& w.payload(raw).number_spec() == payload.number_spec()
        }),
{
    m.lemma_wrapped_wf(payload);
}

/// An object is reclaimed exactly once: calls on a live object leave the log of
/// reclaimed handles alone and keep it live; reclaiming it logs its handle once,
/// the log never repeats a handle, and a second reclaim is refused.
pub proof fn lemma_reclaimed_once<T>(m: TableModel<T>, vt: ThingVtable, raw: u64, p: T)
    requires
        m.wf(),
        m.refusal(vt, raw) is None,
    ensures
        m.with_payload(raw, p).log == m.log,
        m.with_payload(raw, p).refusal(vt, raw) is None,
        !m.log.contains(raw),
        ({
            let r = m.reclaimed(raw);
            &&& r.wf()
            &&& r.log.no_duplicates()
            &&& r.log == m.log.push(raw)
            &&& r.refusal(vt, raw) == Some(BridgeError::Dangling)
        }),
{
    m.lemma_live_not_logged(raw);
    m.lemma_reclaimed_wf(raw);
}

/// Objects wrapped one after the other refer to one descriptor, built from the
/// table's tag and kept once built.
pub proof fn lemma_vtable_shared<T>(m: TableModel<T>, a: T, b: T)
    requires
        m.wf(),
        m.slots.len() + 1 < u64::MAX,
    ensures
        ({
            let w1 = m.wrapped(a);
            let w2 = w1.wrapped(b);
            &&& w1.vtable == w2.vtable
            &&& w2.vtable == Some(ThingVtable { tag: m.tag })
            &&& (m.vtable is Some ==> m.vtable == w1.vtable)
            &&& w2.refusal(w2.vtable->0, m.slots.len() as u64) is None
            &&& w2.refusal(w2.vtable->0, (m.slots.len() + 1) as u64) is None
        }),
{
}

/// Once reclaimed, a handle reaches nothing: every call or reclaim on it is
/// refused, whatever the descriptor, also after more objects are wrapped.
pub proof fn lemma_reclaimed_inert<T>(m: TableModel<T>, vt: ThingVtable, raw: u64, other: T)
    requires
        m.wf(),
        m.live(raw),
    ensures
        m.reclaimed(raw).refusal(vt, raw) is Some,
        m.reclaimed(raw).slots.len() < u64::MAX ==> m.reclaimed(raw).wrapped(other).refusal(
            vt,
            raw,
        ) is Some,
{
}

} // verus!
