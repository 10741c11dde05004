use vstd::prelude::*;

verus! {

/// An opaque join credential minted by the room-hosting service.
/// It is valid for exactly one meeting and is never persisted.
#[derive(Debug)]
pub struct RoomToken(String);

impl View for RoomToken {
    type V = Seq<char>;

    closed spec fn view(&self) -> Seq<char> {
        self.0@
    }
}

impl RoomToken {
    pub fn from(value: String) -> (r: RoomToken)
        ensures
            r@ == value@,
    {
        RoomToken(value)
    }

    pub fn as_ref(&self) -> (r: &String)
        ensures
            r@ == self@,
    {
        &self.0
    }
}

} // verus!
