use vstd::prelude::*;

use crate::domain::meeting::{
    has_meeting_with_id, lemma_studio_meetings_push, meeting_views, studio_meetings, Meeting,
    MeetingId, MeetingView,
};
use crate::domain::studio::StudioId;
use crate::ports::meeting_repository::{MeetingRepository, MeetingRepositoryError};

verus! {

/// A meeting store kept in process memory: a verified stand-in for the
/// database adapter, and the store the tests run the booking service
/// against. It never fails, which its contracts state on top of the
/// port's own.
pub struct InMemoryMeetingRepository {
    entries: Vec<Meeting>,
}

impl InMemoryMeetingRepository {
    pub fn new() -> (r: InMemoryMeetingRepository)
        ensures
            r.meetings() == Seq::<MeetingView>::empty(),
    {
        let r = InMemoryMeetingRepository { entries: Vec::new() };
        proof {
            assert(meeting_views(r.entries@) =~= Seq::<MeetingView>::empty());
        }
        r
    }
}

impl MeetingRepository for InMemoryMeetingRepository {
    closed spec fn meetings(&self) -> Seq<MeetingView> {
        meeting_views(self.entries@)
    }

    fn create_meeting(&mut self, meeting: &Meeting) -> (r: Result<(), MeetingRepositoryError>)
        ensures
            r is Ok,
    {
        self.entries.push(meeting.clone());
        proof {
            assert(meeting_views(self.entries@) =~= meeting_views(old(self).entries@).push(
                meeting@,
            ));
        }
        Ok(())
    }

    fn list_meetings(&self, studio_id: &StudioId) -> (r: Result<
        Vec<Meeting>,
        MeetingRepositoryError,
    >)
        ensures
            r is Ok,
    {
        let mut out: Vec<Meeting> = Vec::new();
        let mut i: usize = 0;
        proof {
            assert(self.entries@.take(0) =~= Seq::<Meeting>::empty());
            assert(meeting_views(self.entries@.take(0)) =~= Seq::<MeetingView>::empty());
            assert(studio_meetings(meeting_views(self.entries@.take(0)), studio_id@)
                =~= Seq::<MeetingView>::empty());
        }
        while i < self.entries.len()
            invariant
                i <= self.entries@.len(),
                meeting_views(out@) == studio_meetings(
                    meeting_views(self.entries@.take(i as int)),
                    studio_id@,
                ),
            decreases self.entries@.len() - i,
        {
            let ghost prefix = self.entries@.take(i as int);
            let ghost entry = self.entries@[i as int];
            if self.entries[i].studio_id.as_u128() == studio_id.as_u128() {
                out.push(self.entries[i].clone());
                proof {
                    assert(meeting_views(out@) =~= studio_meetings(
                        meeting_views(prefix),
                        studio_id@,
                    ).push(entry@));
                }
            }
            proof {
                assert(self.entries@.take(i + 1) =~= prefix.push(entry));
                assert(meeting_views(prefix.push(entry)) =~= meeting_views(prefix).push(entry@));
                lemma_studio_meetings_push(meeting_views(prefix), entry@, studio_id@);
            }
            i += 1;
        }
        proof {
            assert(self.entries@.take(self.entries@.len() as int) =~= self.entries@);
        }
        Ok(out)
    }

    fn find_meeting(&self, meeting_id: &MeetingId) -> (r: Result<
        Option<Meeting>,
        MeetingRepositoryError,
    >)
        ensures
            r is Ok,
    {
        let mut i: usize = 0;
        while i < self.entries.len()
            invariant
                i <= self.entries@.len(),
                forall|j: int|
                    0 <= j < i ==> (#[trigger] meeting_views(self.entries@)[j]).id != meeting_id@,
            decreases self.entries@.len() - i,
        {
            if self.entries[i].id.as_u128() == meeting_id.as_u128() {
                proof {
                    assert(meeting_views(self.entries@)[i as int] == self.entries@[i as int]@);
                    assert(meeting_views(self.entries@).contains(self.entries@[i as int]@));
                }
                return Ok(Some(self.entries[i].clone()));
            }
            proof {
                assert(meeting_views(self.entries@)[i as int] == self.entries@[i as int]@);
            }
            i += 1;
        }
        proof {
            if has_meeting_with_id(meeting_views(self.entries@), meeting_id@) {
                let m = choose|m: MeetingView|
                    meeting_views(self.entries@).contains(m) && m.id == meeting_id@;
                let j = choose|j: int|
                    0 <= j < meeting_views(self.entries@).len() && meeting_views(self.entries@)[j]
                        == m;
                assert(meeting_views(self.entries@)[j].id != meeting_id@);
                assert(false);
            }
        }
        Ok(None)
    }
}

} // verus!
