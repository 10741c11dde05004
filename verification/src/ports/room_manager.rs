use vstd::prelude::*;

use crate::domain::meeting::MeetingId;
use crate::domain::room::RoomToken;

verus! {

/// An opaque failure of the external credential signer. The wrapped text
/// preserves the collaborator's own account of the failure for logging.
#[derive(Debug)]
pub struct RoomManagerError {
    pub detail: String,
}

/// The credential-issuing contract consumed by the booking service.
pub trait RoomManager {
    /// Whether `token` is a credential this manager stands behind for the
    /// meeting with identity `meeting_id`.
    spec fn token_for(&self, meeting_id: u128, token: Seq<char>) -> bool;

    /// Mints a join credential scoped to the given meeting, bound to a fresh
    /// anonymous participant identity chosen by the implementation.
    fn create_token(&self, meeting_id: MeetingId) -> (r: Result<RoomToken, RoomManagerError>)
        ensures
            r matches Ok(t) ==> self.token_for(meeting_id@, t@),
    ;
}

} // verus!
