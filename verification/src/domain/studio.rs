use vstd::prelude::*;

verus! {

/// Opaque identity of a tenant ("studio"), compared by value.
/// It carries the 128 bits of the caller-supplied identifier; the transport
/// layer is responsible for having parsed and validated that identifier.
#[derive(Clone, Copy, PartialEq, Eq, Structural, Hash, Debug)]
pub struct StudioId(u128);

impl View for StudioId {
    type V = u128;

    closed spec fn view(&self) -> u128 {
        self.0
    }
}

impl StudioId {
    pub fn from(raw: u128) -> (r: StudioId)
        ensures
            r@ == raw,
    {
        StudioId(raw)
    }

    pub fn as_u128(&self) -> (raw: u128)
        ensures
            raw == self@,
    {
        self.0
    }
}

/// A tenant. Nothing beyond its identity is modelled here.
pub struct Studio {
    pub id: StudioId,
}

} // verus!
