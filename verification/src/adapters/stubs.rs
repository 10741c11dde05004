use vstd::prelude::*;

use crate::domain::meeting::{Meeting, MeetingId, MeetingView};
use crate::domain::room::RoomToken;
use crate::domain::studio::StudioId;
use crate::ports::meeting_repository::{MeetingRepository, MeetingRepositoryError};
use crate::ports::room_manager::{RoomManager, RoomManagerError};

verus! {

/// A room manager that hands out one fixed credential for every meeting:
/// the test double for the external signer.
pub struct StaticRoomManager {
    token: String,
}

impl StaticRoomManager {
    pub fn new(token: String) -> (r: StaticRoomManager)
        ensures
            forall|id: u128, t: Seq<char>| #[trigger] r.token_for(id, t) <==> t == token@,
    {
        StaticRoomManager { token }
    }
}

impl RoomManager for StaticRoomManager {
    closed spec fn token_for(&self, meeting_id: u128, token: Seq<char>) -> bool {
        token == self.token@
    }

    fn create_token(&self, meeting_id: MeetingId) -> (r: Result<RoomToken, RoomManagerError>)
        ensures
            r is Ok,
    {
        Ok(RoomToken::from(self.token.clone()))
    }
}

/// A room manager whose signer always rejects: the test double for a
/// misconfigured signing key.
pub struct UnavailableRoomManager {}

impl RoomManager for UnavailableRoomManager {
    closed spec fn token_for(&self, meeting_id: u128, token: Seq<char>) -> bool {
        false
    }

    fn create_token(&self, meeting_id: MeetingId) -> (r: Result<RoomToken, RoomManagerError>)
        ensures
            r is Err,
    {
        let _ = meeting_id;
        Err(RoomManagerError { detail: "credential signer unavailable".to_owned() })
    }
}

/// A meeting store whose every operation fails with an infrastructure
/// error: the test double for a lost database.
pub struct UnavailableMeetingRepository {}

impl MeetingRepository for UnavailableMeetingRepository {
    closed spec fn meetings(&self) -> Seq<MeetingView> {
        Seq::empty()
    }

    fn create_meeting(&mut self, meeting: &Meeting) -> (r: Result<(), MeetingRepositoryError>)
        ensures
            r is Err,
    {
        let _ = meeting;
        Err(MeetingRepositoryError { detail: "meeting store unavailable".to_owned() })
    }

    fn list_meetings(&self, studio_id: &StudioId) -> (r: Result<
        Vec<Meeting>,
        MeetingRepositoryError,
    >)
        ensures
            r is Err,
    {
        let _ = studio_id;
        Err(MeetingRepositoryError { detail: "meeting store unavailable".to_owned() })
    }

    fn find_meeting(&self, meeting_id: &MeetingId) -> (r: Result<
        Option<Meeting>,
        MeetingRepositoryError,
    >)
        ensures
            r is Err,
    {
        let _ = meeting_id;
        Err(MeetingRepositoryError { detail: "meeting store unavailable".to_owned() })
    }
}

} // verus!
