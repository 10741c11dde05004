use vstd::prelude::*;

use crate::domain::meeting::{meeting_views, Meeting, MeetingView};
use crate::domain::studio::StudioId;
use crate::domain::time::Timestamp;
use crate::ports::meeting_repository::{MeetingRepository, MeetingRepositoryError};
use crate::services::create_meeting::lemma_listing_members;

verus! {

#[derive(Debug)]
pub enum ListMeetingError {
    /// The meeting store failed; the underlying error is preserved.
    MeetingRepository(MeetingRepositoryError),
}

impl ListMeetingError {
    /// The HTTP status the transport layer maps this error to.
    pub fn status(&self) -> (code: u16)
        ensures
            code == match self {
                ListMeetingError::MeetingRepository(_) => 500u16,
            },
    {
        match self {
            ListMeetingError::MeetingRepository(_) => 500,
        }
    }
}

/// Membership in the outcome of a listing: `m` is in the store, belongs to
/// the studio, and is scheduled strictly after `after`.
pub open spec fn listed(store: Seq<MeetingView>, studio_id: u128, after: i64, m: MeetingView) -> bool {
    store.contains(m) && m.studio_id == studio_id && m.date > after
}

/// Keeps exactly the meetings scheduled strictly after `after`, in order.
pub fn filter_after(meetings: Vec<Meeting>, after: Timestamp) -> (r: Vec<Meeting>)
    ensures
        meeting_views(r@) == meeting_views(meetings@).filter(
            |m: MeetingView| m.date > after@,
        ),
{
    broadcast use Seq::lemma_filter_push;

    let mut r: Vec<Meeting> = Vec::new();
    let mut i: usize = 0;
    proof {
        assert(meetings@.take(0) =~= Seq::<Meeting>::empty());
        assert(meeting_views(meetings@.take(0)) =~= Seq::<MeetingView>::empty());
        assert(meeting_views(r@) =~= meeting_views(meetings@.take(0)).filter(
            |m: MeetingView| m.date > after@,
        ));
    }
    while i < meetings.len()
        invariant
            i <= meetings@.len(),
            meeting_views(r@) == meeting_views(meetings@.take(i as int)).filter(
                |m: MeetingView| m.date > after@,
            ),
        decreases meetings@.len() - i,
    {
        let ghost prefix = meetings@.take(i as int);
        let ghost entry = meetings@[i as int];
        if after.millis() < meetings[i].date.millis() {
            r.push(meetings[i].clone());
            proof {
                assert(meeting_views(r@) =~= meeting_views(prefix).filter(
                    |m: MeetingView| m.date > after@,
                ).push(entry@));
            }
        }
        proof {
            assert(meetings@.take(i + 1) =~= prefix.push(entry));
            assert(meeting_views(prefix.push(entry)) =~= meeting_views(prefix).push(entry@));
            assert(meeting_views(meetings@.take(i + 1)).filter(|m: MeetingView| m.date > after@)
                == meeting_views(prefix).push(entry@).filter(|m: MeetingView| m.date > after@));
            meeting_views(prefix).lemma_filter_push(entry@, |m: MeetingView| m.date > after@);
            assert(meeting_views(prefix).push(entry@).filter(|m: MeetingView| m.date > after@)
                == if entry@.date > after@ {
                meeting_views(prefix).filter(|m: MeetingView| m.date > after@).push(entry@)
            } else {
                meeting_views(prefix).filter(|m: MeetingView| m.date > after@)
            });
        }
        i += 1;
    }
    proof {
        assert(meetings@.take(meetings@.len() as int) =~= meetings@);
    }
    r
}

/// Lists the studio's meetings scheduled strictly after `after`. The result
/// holds a meeting's content exactly when the store holds it for this studio
/// with a date beyond `after`.
pub fn list_meeting<R: MeetingRepository>(
    repo: &R,
    studio_id: StudioId,
    after: Timestamp,
) -> (r: Result<Vec<Meeting>, ListMeetingError>)
    ensures
        r matches Ok(v) ==> forall|m: MeetingView| #[trigger]
            meeting_views(v@).contains(m) <==> listed(repo.meetings(), studio_id@, after@, m),
{
    broadcast use vstd::seq_lib::group_filter_ensures;
    broadcast use Seq::lemma_filter_contains_rev;

    let meetings = match repo.list_meetings(&studio_id) {
        Ok(v) => v,
        Err(e) => {
            return Err(ListMeetingError::MeetingRepository(e));
        },
    };
    let ghost listing = meeting_views(meetings@);
    proof {
        lemma_listing_members(repo.meetings(), listing, studio_id@);
    }
    let kept = filter_after(meetings, after);
    proof {
        let pred = |m: MeetingView| m.date > after@;
        assert forall|m: MeetingView| #[trigger]
            meeting_views(kept@).contains(m) implies listed(
            repo.meetings(),
            studio_id@,
            after@,
            m,
        ) by {
            assert(listing.filter(pred).contains(m));
        };
        assert forall|m: MeetingView|
            listed(repo.meetings(), studio_id@, after@, m) implies #[trigger] meeting_views(
            kept@,
        ).contains(m) by {
            assert(listing.contains(m));
            let i = choose|i: int| 0 <= i < listing.len() && listing[i] == m;
            assert(listing.filter(pred).contains(listing[i]));
        };
    }
    Ok(kept)
}

/// A meeting just recorded shows up in a listing from any earlier instant,
/// and never in a listing from its own date: the `after` bound is strict.
pub proof fn lemma_created_meeting_listed(s: Seq<MeetingView>, m: MeetingView, after: i64)
    ensures
        after < m.date ==> listed(s.push(m), m.studio_id, after, m),
        !listed(s.push(m), m.studio_id, m.date, m),
{
    assert(s.push(m)[s.len() as int] == m);
    assert(s.push(m).contains(m));
}

} // verus!
