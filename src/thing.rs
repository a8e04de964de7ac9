use vstd::prelude::*;

verus! {

/// The capability interface: the operations a native type offers across the bridge.
pub trait Thing: Sized {
    /// The value that `number` produces when called on this state.
    spec fn number_spec(&self) -> i32;

    /// Produces the object's number.
    fn number(&mut self) -> (r: i32)
        ensures
            r == old(self).number_spec(),
    ;
}

/// The reference capability: its number is always 42.
pub struct ThingImpl {}

impl ThingImpl {
    pub fn new() -> (r: ThingImpl)
        ensures
            r.number_spec() == 42,
    {
        ThingImpl {  }
    }
}

impl Thing for ThingImpl {
    open spec fn number_spec(&self) -> i32 {
        42
    }

    fn number(&mut self) -> (r: i32) {
        42
    }
}

} // verus!
