use vstd::prelude::*;

use crate::domain::meeting::{
    has_meeting_with_id, meeting_views, studio_meetings, Meeting, MeetingId, MeetingView,
};
use crate::domain::studio::StudioId;

verus! {

/// An opaque infrastructure failure of the meeting store. The wrapped text
/// preserves the collaborator's own account of the failure for logging.
#[derive(Debug)]
pub struct MeetingRepositoryError {
    pub detail: String,
}

/// The persistence contract consumed by the booking service.
///
/// An implementation carries an abstract state, `meetings`: the contents of
/// the store as bare values. Every operation may fail with an infrastructure
/// error; what each promises of the abstract state on the outcomes it can
/// have is stated below, and the booking service is verified against exactly
/// these promises.
pub trait MeetingRepository {
    /// The meetings the store currently holds, in insertion order.
    spec fn meetings(&self) -> Seq<MeetingView>;

    /// Persists one new meeting. Duplicate detection is not this port's
    /// business: it must accept any meeting, and on success the store holds
    /// exactly one more entry.
    fn create_meeting(&mut self, meeting: &Meeting) -> (r: Result<(), MeetingRepositoryError>)
        ensures
            r is Ok ==> final(self).meetings() == old(self).meetings().push(meeting@),
            r is Err ==> final(self).meetings() == old(self).meetings(),
    ;

    /// Returns all meetings owned by the given studio and no others, in any
    /// order: the result is a permutation of the studio's entries.
    fn list_meetings(&self, studio_id: &StudioId) -> (r: Result<
        Vec<Meeting>,
        MeetingRepositoryError,
    >)
        ensures
            r matches Ok(v) ==> meeting_views(v@).to_multiset() == studio_meetings(
                self.meetings(),
                studio_id@,
            ).to_multiset(),
    ;

    /// Looks one meeting up by identity. Absence is `Ok(None)`, never an
    /// error; an error is reserved for infrastructure failure.
    fn find_meeting(&self, meeting_id: &MeetingId) -> (r: Result<
        Option<Meeting>,
        MeetingRepositoryError,
    >)
        ensures
            r matches Ok(found) ==> match found {
                Some(m) => self.meetings().contains(m@) && m@.id == meeting_id@,
                None => !has_meeting_with_id(self.meetings(), meeting_id@),
            },
    ;
}

} // verus!
