use vstd::prelude::*;

use crate::domain::meeting::{
    has_date, has_meeting_at, meeting_views, studio_meetings, Meeting, MeetingId, MeetingName,
    MeetingView,
};
use crate::domain::studio::StudioId;
use crate::domain::time::Timestamp;
use crate::ports::meeting_repository::{MeetingRepository, MeetingRepositoryError};

verus! {

#[derive(Debug)]
pub enum CreateMeetingError {
    /// The requested date lies strictly before the supplied current time.
    DateInThePast,
    /// The studio already has a meeting at exactly the requested date.
    DateAlreadyTaken,
    /// The meeting store failed; the underlying error is preserved.
    MeetingRepository(MeetingRepositoryError),
}

impl CreateMeetingError {
    /// The HTTP status the transport layer maps this error to.
    pub fn status(&self) -> (code: u16)
        ensures
            code == match self {
                CreateMeetingError::DateInThePast => 400u16,
                CreateMeetingError::DateAlreadyTaken => 400u16,
                CreateMeetingError::MeetingRepository(_) => 500u16,
            },
    {
        match self {
            CreateMeetingError::DateInThePast => 400,
            CreateMeetingError::DateAlreadyTaken => 400,
            CreateMeetingError::MeetingRepository(_) => 500,
        }
    }
}

/// Whether some meeting of the list is scheduled at exactly `date`.
fn date_taken(meetings: &Vec<Meeting>, date: Timestamp) -> (taken: bool)
    ensures
        taken == has_date(meeting_views(meetings@), date@),
{
    let mut i: usize = 0;
    while i < meetings.len()
        invariant
            i <= meetings@.len(),
            forall|j: int| 0 <= j < i ==> (#[trigger] meeting_views(meetings@)[j]).date != date@,
        decreases meetings@.len() - i,
    {
        if meetings[i].date.millis() == date.millis() {
            proof {
                assert(meeting_views(meetings@)[i as int] == meetings@[i as int]@);
                assert(meeting_views(meetings@).contains(meetings@[i as int]@));
            }
            return true;
        }
        i += 1;
    }
    proof {
        if has_date(meeting_views(meetings@), date@) {
            let m = choose|m: MeetingView|
                meeting_views(meetings@).contains(m) && m.date == date@;
            let j = choose|j: int|
                0 <= j < meeting_views(meetings@).len() && meeting_views(meetings@)[j] == m;
            assert(meeting_views(meetings@)[j].date != date@);
            assert(false);
        }
    }
    false
}

/// The pure decision step of meeting creation: given the studio's existing
/// meetings, either rejects the request or assembles the meeting to persist,
/// with a freshly drawn identity. It never touches a collaborator, so the
/// transport layer can run it between its own store calls.
pub fn plan_create_meeting(
    existing: &Vec<Meeting>,
    name: MeetingName,
    date: Timestamp,
    studio_id: StudioId,
    today: Timestamp,
) -> (r: Result<Meeting, CreateMeetingError>)
    ensures
        r matches Err(CreateMeetingError::DateInThePast) <==> date@ < today@,
        r matches Err(CreateMeetingError::DateAlreadyTaken) <==> (date@ >= today@ && has_date(
            meeting_views(existing@),
            date@,
        )),
        r is Ok <==> (date@ >= today@ && !has_date(meeting_views(existing@), date@)),
        r matches Ok(m) ==> m@.name == name@ && m@.date == date@ && m@.studio_id == studio_id@,
{
    if date.before(&today) {
        return Err(CreateMeetingError::DateInThePast);
    }
    if date_taken(existing, date) {
        return Err(CreateMeetingError::DateAlreadyTaken);
    }
    let id = MeetingId::new();
    Ok(Meeting { id, studio_id, name, date })
}

/// Books a meeting: rejects a date in the past (equality with `today` is
/// accepted), rejects a date on which the studio already has a meeting, and
/// otherwise persists a meeting with a fresh identity and returns it.
///
/// The contract accounts for every outcome: each business error happens
/// exactly on the stated inputs, a store failure leaves the store unchanged,
/// and on success the store holds exactly the returned meeting more.
pub fn create_meeting<R: MeetingRepository>(
    repo: &mut R,
    name: MeetingName,
    date: Timestamp,
    studio_id: StudioId,
    today: Timestamp,
) -> (r: Result<Meeting, CreateMeetingError>)
    ensures
        r is Err ==> final(repo).meetings() == old(repo).meetings(),
        r matches Err(CreateMeetingError::DateInThePast) <==> date@ < today@,
        r matches Err(CreateMeetingError::DateAlreadyTaken) ==> date@ >= today@ && has_meeting_at(
            old(repo).meetings(),
            studio_id@,
            date@,
        ),
        date@ >= today@ && has_meeting_at(old(repo).meetings(), studio_id@, date@) ==> (
        r matches Err(CreateMeetingError::DateAlreadyTaken) || r matches Err(
            CreateMeetingError::MeetingRepository(_),
        )),
        date@ >= today@ && !has_meeting_at(old(repo).meetings(), studio_id@, date@) ==> (r is Ok
            || r matches Err(CreateMeetingError::MeetingRepository(_))),
        r matches Ok(m) ==> ({
            &&& date@ >= today@
            &&& !has_meeting_at(old(repo).meetings(), studio_id@, date@)
            &&& m@.name == name@
            &&& m@.date == date@
            &&& m@.studio_id == studio_id@
            &&& final(repo).meetings() == old(repo).meetings().push(m@)
        }),
{
    if date.before(&today) {
        return Err(CreateMeetingError::DateInThePast);
    }
    let meetings = match repo.list_meetings(&studio_id) {
        Ok(v) => v,
        Err(e) => {
            return Err(CreateMeetingError::MeetingRepository(e));
        },
    };
    proof {
        lemma_listing_members(old(repo).meetings(), meeting_views(meetings@), studio_id@);
        assert(has_date(meeting_views(meetings@), date@) <==> has_meeting_at(
            old(repo).meetings(),
            studio_id@,
            date@,
        )) by {
            if has_date(meeting_views(meetings@), date@) {
                let m = choose|m: MeetingView|
                    meeting_views(meetings@).contains(m) && m.date == date@;
                assert(meeting_views(meetings@).contains(m));
                assert(old(repo).meetings().contains(m) && m.studio_id == studio_id@);
            }
            if has_meeting_at(old(repo).meetings(), studio_id@, date@) {
                let m = choose|m: MeetingView|
                    old(repo).meetings().contains(m) && m.studio_id == studio_id@ && m.date
                        == date@;
                assert(meeting_views(meetings@).contains(m));
            }
        }
    }
    let meeting = match plan_create_meeting(&meetings, name, date, studio_id, today) {
        Ok(m) => m,
        Err(e) => {
            return Err(e);
        },
    };
    match repo.create_meeting(&meeting) {
        Ok(_) => Ok(meeting),
        Err(e) => Err(CreateMeetingError::MeetingRepository(e)),
    }
}

/// A listing that is a permutation of the studio's entries holds exactly the
/// store's meetings of that studio.
pub proof fn lemma_listing_members(
    store: Seq<MeetingView>,
    listing: Seq<MeetingView>,
    studio_id: u128,
)
    requires
        listing.to_multiset() == studio_meetings(store, studio_id).to_multiset(),
    ensures
        forall|m: MeetingView| #[trigger]
            listing.contains(m) <==> (store.contains(m) && m.studio_id == studio_id),
{
    broadcast use vstd::seq_lib::group_to_multiset_ensures;
    broadcast use vstd::seq_lib::group_filter_ensures;
    broadcast use Seq::lemma_filter_contains_rev;

    let filtered = studio_meetings(store, studio_id);
    assert forall|m: MeetingView| #[trigger]
        listing.contains(m) implies (store.contains(m) && m.studio_id == studio_id) by {
        assert(listing.to_multiset().count(m) > 0);
        assert(filtered.contains(m));
    };
    assert forall|m: MeetingView|
        store.contains(m) && m.studio_id == studio_id implies #[trigger] listing.contains(m) by {
        let i = choose|i: int| 0 <= i < store.len() && store[i] == m;
        assert(filtered.contains(store[i]));
        assert(filtered.to_multiset().count(m) > 0);
        assert(listing.to_multiset().count(m) > 0);
    };
}

/// Once a created meeting is recorded, its studio holds a meeting at exactly
/// its date, so by the contract of `create_meeting` a second creation at that
/// date can no longer succeed.
pub proof fn lemma_created_date_taken(s: Seq<MeetingView>, m: MeetingView)
    ensures
        has_meeting_at(s.push(m), m.studio_id, m.date),
{
    assert(s.push(m)[s.len() as int] == m);
    assert(s.push(m).contains(m));
}

} // verus!
