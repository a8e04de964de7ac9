use vstd::prelude::*;

use crate::thing::Thing;

verus! {

/// Why the bridge refused to act on a handle.
#[derive(Clone, Copy, Debug, PartialEq, Eq, Structural)]
pub enum BridgeError {
    /// The proxy carries a descriptor other than the one its table hands out.
    VtableMismatch,
    /// The handle was never issued by the table, or its object was already reclaimed.
    Dangling,
}

/// The descriptor of one concrete type: every object of that type exported through
/// one table refers to the same descriptor. Its two entries are `number` and
/// `destroy`, which take only the table and the opaque handle.
#[derive(Clone, Copy, Debug, PartialEq, Eq, Structural)]
pub struct ThingVtable {
    pub tag: u64,
}

/// The erasure holder: an exported payload together with its type's descriptor.
pub struct ThingInstance<T> {
    pub vtable: ThingVtable,
    pub sides_self: T,
}

/// The abstract state of a table of exported objects.
pub struct TableModel<T> {
    /// The tag the table's descriptor is built with.
    pub tag: u64,
    /// The descriptor, built when the first object is wrapped.
    pub vtable: Option<ThingVtable>,
    /// For each issued handle, the payload it owns, or `None` once reclaimed.
    pub slots: Seq<Option<T>>,
    /// The handles whose objects were reclaimed, in the order it happened.
    pub log: Seq<u64>,
}

impl<T> TableModel<T> {
    pub open spec fn empty(tag: u64) -> TableModel<T> {
        TableModel { tag, vtable: None, slots: Seq::empty(), log: Seq::empty() }
    }

    pub open spec fn wf(self) -> bool {
        &&& self.slots.len() <= u64::MAX
        &&& (self.vtable is Some ==> self.vtable->0 == ThingVtable { tag: self.tag })
        &&& (self.slots.len() > 0 ==> self.vtable is Some)
        &&& self.log.no_duplicates()
        &&& forall|i: int|
            0 <= i < self.log.len() ==> {
                &&& #[trigger] self.log[i] < self.slots.len()
                &&& self.slots[self.log[i] as int] is None
            }
        &&& forall|j: int|
            0 <= j < self.slots.len() && #[trigger] self.slots[j] is None ==> self.log.contains(
                j as u64,
            )
    }

    /// The handle refers to an object that has not been reclaimed.
    pub open spec fn live(self, raw: u64) -> bool {
        raw < self.slots.len() && self.slots[raw as int] is Some
    }

    pub open spec fn payload(self, raw: u64) -> T {
        self.slots[raw as int]->0
    }

    /// Why an operation through descriptor `vt` on handle `raw` is refused, if it is.
    pub open spec fn refusal(self, vt: ThingVtable, raw: u64) -> Option<BridgeError> {
        if self.vtable != Some(vt) {
            Some(BridgeError::VtableMismatch)
        } else if !self.live(raw) {
            Some(BridgeError::Dangling)
        } else {
            None
        }
    }

    /// The state after `payload` is wrapped: the descriptor is built if there is none
    /// yet, and the payload gets the next handle.
    pub open spec fn wrapped(self, payload: T) -> TableModel<T> {
        TableModel {
            vtable: Some(ThingVtable { tag: self.tag }),
            slots: self.slots.push(Some(payload)),
            ..self
        }
    }

    /// The state after the object of `raw` took the new state `p`.
    pub open spec fn with_payload(self, raw: u64, p: T) -> TableModel<T> {
        TableModel { slots: self.slots.update(raw as int, Some(p)), ..self }
    }

    /// The state after the object of `raw` was reclaimed.
    pub open spec fn reclaimed(self, raw: u64) -> TableModel<T> {
        TableModel { slots: self.slots.update(raw as int, None), log: self.log.push(raw), ..self }
    }

    /// Wrapping keeps the state well formed.
    pub proof fn lemma_wrapped_wf(self, payload: T)
        requires
            self.wf(),
            self.slots.len() < u64::MAX,
        ensures
            self.wrapped(payload).wf(),
    {
        let m = self.wrapped(payload);
        assert forall|j: int| 0 <= j < m.slots.len() && #[trigger] m.slots[j] is None implies m.log.contains(j as u64) by {
            assert(self.slots[j] is None);
        }
        assert forall|i: int| 0 <= i < m.log.len() implies {
            &&& #[trigger] m.log[i] < m.slots.len()
            &&& m.slots[m.log[i] as int] is None
        } by {
            assert(self.log[i] < self.slots.len());
        }
    }

    /// A new state of a live object keeps the state well formed.
    pub proof fn lemma_with_payload_wf(self, raw: u64, p: T)
        requires
            self.wf(),
            self.live(raw),
        ensures
            self.with_payload(raw, p).wf(),
    {
        let m = self.with_payload(raw, p);
        assert forall|j: int| 0 <= j < m.slots.len() && #[trigger] m.slots[j] is None implies m.log.contains(j as u64) by {
            assert(self.slots[j] is None);
        }
        assert forall|i: int| 0 <= i < m.log.len() implies {
            &&& #[trigger] m.log[i] < m.slots.len()
            &&& m.slots[m.log[i] as int] is None
        } by {
            assert(self.log[i] < self.slots.len());
        }
    }

    /// A live handle is not yet in the log.
    pub proof fn lemma_live_not_logged(self, raw: u64)
        requires
            self.wf(),
            self.live(raw),
        ensures
            !self.log.contains(raw),
    {
        if self.log.contains(raw) {
            let k = choose|k: int| 0 <= k < self.log.len() && self.log[k] == raw;
            assert(self.log[k] < self.slots.len());
        }
    }

    /// Reclaiming a live object keeps the state well formed.
    pub proof fn lemma_reclaimed_wf(self, raw: u64)
        requires
            self.wf(),
            self.live(raw),
        ensures
            self.reclaimed(raw).wf(),
    {
        let m = self.reclaimed(raw);
        self.lemma_live_not_logged(raw);
        assert forall|j: int| 0 <= j < m.slots.len() && #[trigger] m.slots[j] is None implies m.log.contains(j as u64) by {
            if j == raw as int {
                assert(m.log[m.log.len() - 1] == raw);
            } else {
                assert(self.slots[j] is None);
                let k = choose|k: int| 0 <= k < self.log.len() && self.log[k] == j as u64;
                assert(m.log[k] == j as u64);
            }
        }
        assert forall|k: int| 0 <= k < m.log.len() implies {
            &&& #[trigger] m.log[k] < m.slots.len()
            &&& m.slots[m.log[k] as int] is None
        } by {
            if k < self.log.len() {
                assert(self.log[k] < self.slots.len());
            }
        }
    }
}

/// The objects exported for one concrete type, each reachable by its handle.
pub struct ThingTable<T> {
    tag: u64,
    vtable: Option<ThingVtable>,
    slots: Vec<Option<ThingInstance<T>>>,
    log: Vec<u64>,
}

/// The payload a slot holds, if any.
pub open spec fn payload_of<T>(s: Option<ThingInstance<T>>) -> Option<T> {
    match s {
        Some(i) => Some(i.sides_self),
        None => None,
    }
}

impl<T> View for ThingTable<T> {
    type V = TableModel<T>;

    closed spec fn view(&self) -> TableModel<T> {
        TableModel {
            tag: self.tag,
            vtable: self.vtable,
            slots: self.slots@.map_values(|s: Option<ThingInstance<T>>| payload_of(s)),
            log: self.log@,
        }
    }
}

impl<T: Thing> ThingInstance<T> {
    /// Pairs a payload with its type's descriptor.
    pub fn new(vtable: ThingVtable, sides_self: T) -> (r: ThingInstance<T>)
        ensures
            r.vtable == vtable,
            r.sides_self == sides_self,
    {
        ThingInstance { vtable, sides_self }
    }

    /// The descriptor's `number` entry: forwards to the payload.
    pub fn vtable_number(&mut self) -> (r: i32)
        ensures
            r == old(self).sides_self.number_spec(),
            final(self).vtable == old(self).vtable,
    {
        self.sides_self.number()
    }

    /// The descriptor's `destroy` entry: gives up the holder and hands back its payload.
    pub fn vtable_destroy(self) -> (r: T)
        ensures
            r == self.sides_self,
    {
        self.sides_self
    }
}

impl<T: Thing> ThingTable<T> {
    /// The table is well formed: its state is consistent and every live holder refers
    /// to the table's descriptor.
    pub closed spec fn wf(&self) -> bool {
        &&& self@.wf()
        &&& forall|i: int|
            0 <= i < self.slots@.len() && #[trigger] self.slots@[i] is Some ==> self.slots@[i]->0.vtable
                == self.vtable->0
    }

    /// An empty table whose descriptor will carry `tag`.
    pub fn new(tag: u64) -> (r: ThingTable<T>)
        ensures
            r.wf(),
            r@ == TableModel::<T>::empty(tag),
    {
        let r = ThingTable { tag, vtable: None, slots: Vec::new(), log: Vec::new() };
        assert(r@.slots =~= Seq::<Option<T>>::empty());
        r
    }

    /// The descriptor, once one object has been wrapped.
    pub fn vtable(&self) -> (r: Option<ThingVtable>)
        ensures
            r == self@.vtable,
    {
        self.vtable
    }

    /// How many handles were issued.
    pub fn issued(&self) -> (r: u64)
        ensures
            r == self@.slots.len(),
    {
        self.slots.len() as u64
    }

    /// Whether `raw` refers to an object that has not been reclaimed.
    pub fn is_live(&self, raw: u64) -> (r: bool)
        ensures
            r == self@.live(raw),
    {
        if raw < self.slots.len() as u64 {
            self.slots[raw as usize].is_some()
        } else {
            false
        }
    }

    /// The handles whose objects were reclaimed, in order.
    pub fn reclaimed(&self) -> (r: &Vec<u64>)
        ensures
            r@ == self@.log,
    {
        &self.log
    }

    /// Exports `payload`: builds the type's descriptor on first use, stores the holder
    /// and returns the proxy that owns it.
    pub fn wrap(&mut self, payload: T) -> (r: ThingExternal)
        requires
            old(self).wf(),
            old(self)@.slots.len() < u64::MAX,
        ensures
            final(self).wf(),
            final(self)@ == old(self)@.wrapped(payload),
            Some(r.vtable_spec()) == final(self)@.vtable,
            r.raw_spec() == old(self)@.slots.len(),
    {
        let vtable = match self.vtable {
            Some(v) => v,
            None => ThingVtable { tag: self.tag },
        };
        self.vtable = Some(vtable);
        let raw = self.slots.len() as u64;
        let instance = ThingInstance::new(vtable, payload);
        self.slots.push(Some(instance));
        proof {
            old(self)@.lemma_wrapped_wf(payload);
            assert(self@.slots =~= old(self)@.slots.push(Some(payload)));
            assert(self@ =~= old(self)@.wrapped(payload));
        }
        ThingExternal { vtable, sides_self: raw }
    }
}

impl ThingVtable {
    /// The `number` entry: runs the operation on the object of `raw`, provided the
    /// table hands out this descriptor and the object is live.
    pub fn number<T: Thing>(&self, table: &mut ThingTable<T>, raw: u64) -> (r: Result<i32, BridgeError>)
        requires
            old(table).wf(),
        ensures
            final(table).wf(),
            match old(table)@.refusal(*self, raw) {
                Some(e) => r == Err::<i32, BridgeError>(e) && final(table)@ == old(table)@,
                None => {
                    &&& r == Ok::<i32, BridgeError>(old(table)@.payload(raw).number_spec())
                    &&& final(table)@ == old(table)@.with_payload(raw, final(table)@.payload(raw))
                },
            },
    {
        if table.vtable != Some(*self) {
            return Err(BridgeError::VtableMismatch);
        }
        if !table.is_live(raw) {
            return Err(BridgeError::Dangling);
        }
        assert(table.slots@.len() == table@.slots.len());
        assert(raw < table.slots.len());
        let i = raw as usize;
        assert(i as int == raw as int);
        let mut slot: Option<ThingInstance<T>> = None;
        table.slots.set_and_swap(i, &mut slot);
        match slot {
            Some(mut instance) => {
                let n = instance.vtable_number();
                table.slots.set(i, Some(instance));
                proof {
                    let m = table@;
                    let o = old(table)@;
                    assert(m.slots =~= o.slots.update(i as int, Some(instance.sides_self)));
                    assert(m =~= o.with_payload(raw, m.payload(raw)));
                    o.lemma_with_payload_wf(raw, m.payload(raw));
                }
                Ok(n)
            },
            None => Err(BridgeError::Dangling),
        }
    }

    /// The `destroy` entry: reclaims the object of `raw` and hands back its payload,
    /// provided the table hands out this descriptor and the object is live.
    pub fn destroy<T: Thing>(&self, table: &mut ThingTable<T>, raw: u64) -> (r: Result<T, BridgeError>)
        requires
            old(table).wf(),
        ensures
            final(table).wf(),
            match old(table)@.refusal(*self, raw) {
                Some(e) => r == Err::<T, BridgeError>(e) && final(table)@ == old(table)@,
                None => {
                    &&& r == Ok::<T, BridgeError>(old(table)@.payload(raw))
                    &&& final(table)@ == old(table)@.reclaimed(raw)
                },
            },
    {
        if table.vtable != Some(*self) {
            return Err(BridgeError::VtableMismatch);
        }
        if !table.is_live(raw) {
            return Err(BridgeError::Dangling);
        }
        assert(table.slots@.len() == table@.slots.len());
        assert(raw < table.slots.len());
        let i = raw as usize;
        assert(i as int == raw as int);
        let mut slot: Option<ThingInstance<T>> = None;
        table.slots.set_and_swap(i, &mut slot);
        match slot {
            Some(instance) => {
                table.log.push(raw);
                proof {
                    let m = table@;
                    let o = old(table)@;
                    assert(m.slots =~= o.slots.update(i as int, None));
                    assert(m.log =~= o.log.push(raw));
                    o.lemma_reclaimed_wf(raw);
                    assert(m =~= o.reclaimed(raw));
                }
                Ok(instance.vtable_destroy())
            },
            None => Err(BridgeError::Dangling),
        }
    }
}

/// The boundary proxy: a descriptor and the opaque handle of the object it owns.
/// It is move-only, so that one handle has one owner at a time.
pub struct ThingExternal {
    vtable: ThingVtable,
    sides_self: u64,
}

impl ThingExternal {
    pub closed spec fn vtable_spec(&self) -> ThingVtable {
        self.vtable
    }

    pub closed spec fn raw_spec(&self) -> u64 {
        self.sides_self
    }

    /// Rebuilds a proxy from a descriptor and a handle that came back across the
    /// boundary unchanged.
    pub fn from_raw(vtable: ThingVtable, raw: u64) -> (r: ThingExternal)
        ensures
            r.vtable_spec() == vtable,
            r.raw_spec() == raw,
    {
        ThingExternal { vtable, sides_self: raw }
    }

    /// Gives up the proxy for the handle that crosses the boundary.
    pub fn into_raw(self) -> (r: u64)
        ensures
            r == self.raw_spec(),
    {
        self.sides_self
    }

    pub fn vtable(&self) -> (r: ThingVtable)
        ensures
            r == self.vtable_spec(),
    {
        self.vtable
    }

    pub fn raw(&self) -> (r: u64)
        ensures
            r == self.raw_spec(),
    {
        self.sides_self
    }

    /// Calls `number` on the owned object through the descriptor.
    pub fn number<T: Thing>(&self, table: &mut ThingTable<T>) -> (r: Result<i32, BridgeError>)
        requires
            old(table).wf(),
        ensures
            final(table).wf(),
            match old(table)@.refusal(self.vtable_spec(), self.raw_spec()) {
                Some(e) => r == Err::<i32, BridgeError>(e) && final(table)@ == old(table)@,
                None => {
                    &&& r == Ok::<i32, BridgeError>(old(table)@.payload(self.raw_spec()).number_spec())
                    &&& final(table)@ == old(table)@.with_payload(
                        self.raw_spec(),
                        final(table)@.payload(self.raw_spec()),
                    )
                },
            },
    {
        self.vtable.number(table, self.sides_self)
    }

    /// Ends the proxy's life: the descriptor's `destroy` entry reclaims the object
    /// and its payload is handed back.
    pub fn destroy<T: Thing>(self, table: &mut ThingTable<T>) -> (r: Result<T, BridgeError>)
        requires
            old(table).wf(),
        ensures
            final(table).wf(),
            match old(table)@.refusal(self.vtable_spec(), self.raw_spec()) {
                Some(e) => r == Err::<T, BridgeError>(e) && final(table)@ == old(table)@,
                None => {
                    &&& r == Ok::<T, BridgeError>(old(table)@.payload(self.raw_spec()))
                    &&& final(table)@ == old(table)@.reclaimed(self.raw_spec())
                },
            },
    {
        self.vtable.destroy(table, self.sides_self)
    }
}

} // verus!
