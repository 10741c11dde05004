use vstd::prelude::*;

use crate::domain::meeting::{has_meeting_with_id, Meeting, MeetingId, MeetingView};
use crate::domain::room::RoomToken;
use crate::domain::time::Timestamp;
use crate::ports::meeting_repository::{MeetingRepository, MeetingRepositoryError};
use crate::ports::room_manager::{RoomManager, RoomManagerError};

verus! {

#[derive(Debug)]
pub enum JoinMeetingError {
    /// No meeting carries the requested identity.
    NotFound,
    /// The meeting's date already lies strictly before the current time.
    TooLate,
    /// The meeting store failed; the underlying error is preserved.
    MeetingRepository(MeetingRepositoryError),
    /// The credential signer failed; the underlying error is preserved.
    RoomManager(RoomManagerError),
}

impl JoinMeetingError {
    /// The HTTP status the transport layer maps this error to.
    pub fn status(&self) -> (code: u16)
        ensures
            code == match self {
                JoinMeetingError::NotFound => 404u16,
                JoinMeetingError::TooLate => 400u16,
                JoinMeetingError::MeetingRepository(_) => 500u16,
                JoinMeetingError::RoomManager(_) => 500u16,
            },
    {
        match self {
            JoinMeetingError::NotFound => 404,
            JoinMeetingError::TooLate => 400,
            JoinMeetingError::MeetingRepository(_) => 500,
            JoinMeetingError::RoomManager(_) => 500,
        }
    }
}

/// The admission window, decided on a looked-up meeting: absent is
/// `NotFound`, a date strictly before `today` is `TooLate`, joining exactly
/// at the scheduled instant is still allowed. Pure, for the transport layer
/// to run between its own store and signer calls.
pub fn check_admission(meeting: &Option<Meeting>, today: Timestamp) -> (r: Result<
    MeetingId,
    JoinMeetingError,
>)
    ensures
        match meeting {
            None => r matches Err(JoinMeetingError::NotFound),
            Some(m) => if m@.date < today@ {
                r matches Err(JoinMeetingError::TooLate)
            } else {
                r matches Ok(id) && id == m.id
            },
        },
{
    match meeting {
        None => Err(JoinMeetingError::NotFound),
        Some(m) => {
            if m.date.before(&today) {
                Err(JoinMeetingError::TooLate)
            } else {
                Ok(m.id)
            }
        },
    }
}

/// Exchanges a meeting identity for a join credential: looks the meeting up,
/// checks the admission window, and asks the room manager for a token bound
/// to that meeting.
///
/// Each outcome is pinned to its cause: `NotFound` only when no meeting has
/// the identity, `TooLate` only when a found meeting has passed, and a token
/// only for a still-admissible meeting, vouched for by the room manager.
pub fn join_meeting<R: MeetingRepository, M: RoomManager>(
    repository: &R,
    room_manager: &M,
    meeting_id: MeetingId,
    today: Timestamp,
) -> (r: Result<RoomToken, JoinMeetingError>)
    ensures
        r matches Err(JoinMeetingError::NotFound) ==> !has_meeting_with_id(
            repository.meetings(),
            meeting_id@,
        ),
        !has_meeting_with_id(repository.meetings(), meeting_id@) ==> (r matches Err(
            JoinMeetingError::NotFound,
        ) || r matches Err(JoinMeetingError::MeetingRepository(_))),
        r matches Err(JoinMeetingError::TooLate) ==> (exists|m: MeetingView| #[trigger]
            repository.meetings().contains(m) && m.id == meeting_id@ && m.date < today@),
        (forall|m: MeetingView| #[trigger]
            repository.meetings().contains(m) && m.id == meeting_id@ ==> m.date >= today@)
            ==> !(r matches Err(JoinMeetingError::TooLate)),
        r matches Err(JoinMeetingError::RoomManager(_)) ==> (exists|m: MeetingView| #[trigger]
            repository.meetings().contains(m) && m.id == meeting_id@ && m.date >= today@),
        r matches Ok(t) ==> room_manager.token_for(meeting_id@, t@) && (exists|m: MeetingView|
            #[trigger] repository.meetings().contains(m) && m.id == meeting_id@ && m.date
            >= today@),
{
    let meeting = match repository.find_meeting(&meeting_id) {
        Ok(Some(m)) => m,
        Ok(None) => {
            return Err(JoinMeetingError::NotFound);
        },
        Err(e) => {
            return Err(JoinMeetingError::MeetingRepository(e));
        },
    };
    if meeting.date.before(&today) {
        return Err(JoinMeetingError::TooLate);
    }
    match room_manager.create_token(meeting.id) {
        Ok(token) => Ok(token),
        Err(e) => Err(JoinMeetingError::RoomManager(e)),
    }
}

} // verus!
