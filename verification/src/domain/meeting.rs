use vstd::prelude::*;

use crate::domain::studio::StudioId;
use crate::domain::time::Timestamp;
use crate::domain::uuid_text::{uuid_chars, uuid_string};

verus! {

/// Opaque identity of a meeting. It is generated by the booking service at
/// creation time and never supplied by a caller.
#[derive(Clone, Copy, PartialEq, Eq, Structural, Hash, Debug)]
pub struct MeetingId(u128);

/// Relies on `uuid::Uuid::new_v4` for a fresh random 128-bit identifier;
/// nothing is assumed of the value drawn.
#[verifier::external_body]
pub(crate) fn random_u128() -> u128 {
    uuid::Uuid::new_v4().as_u128()
}

impl View for MeetingId {
    type V = u128;

    closed spec fn view(&self) -> u128 {
        self.0
    }
}

impl MeetingId {
    /// Draws a fresh random identity.
    pub fn new() -> MeetingId {
        MeetingId(random_u128())
    }

    pub fn from(raw: u128) -> (r: MeetingId)
        ensures
            r@ == raw,
    {
        MeetingId(raw)
    }

    pub fn as_u128(&self) -> (raw: u128)
        ensures
            raw == self@,
    {
        self.0
    }

    /// The identity in canonical hyphenated text form, as the room-hosting
    /// service expects room names.
    pub fn to_uuid_string(&self) -> (s: String)
        ensures
            s@ == uuid_chars(self@),
    {
        uuid_string(self.0)
    }
}

/// A character that carries no visible content in a meeting name.
pub open spec fn blank_char(c: char) -> bool {
    c == ' ' || c == '\t' || c == '\n' || c == '\r'
}

/// A name is acceptable when it still has content after trimming blanks:
/// at least one of its characters is not blank.
pub open spec fn valid_name(s: Seq<char>) -> bool {
    exists|i: int| 0 <= i < s.len() && !blank_char(#[trigger] s[i])
}

#[derive(Debug, PartialEq, Eq, Structural, Clone, Copy)]
pub enum MeetingNameError {
    InvalidName,
}

/// The validated name of a meeting. The only way to obtain one is
/// `MeetingName::try_from`, so every value of this type satisfies
/// `valid_name` for its whole lifetime.
#[derive(Debug)]
pub struct MeetingName {
    inner: String,
}

impl View for MeetingName {
    type V = Seq<char>;

    closed spec fn view(&self) -> Seq<char> {
        self.inner@
    }
}

impl MeetingName {
    #[verifier::type_invariant]
    spec fn wf(self) -> bool {
        valid_name(self.inner@)
    }

    /// The single fallible factory: accepts exactly the strings whose
    /// trimmed length is not zero.
    pub fn try_from(value: String) -> (r: Result<MeetingName, MeetingNameError>)
        ensures
            r is Ok <==> valid_name(value@),
            r matches Ok(n) ==> n@ == value@,
    {
        let n = value.as_str().unicode_len();
        let mut i: usize = 0;
        while i < n
            invariant
                n == value@.len(),
                i <= n,
                forall|j: int| 0 <= j < i ==> blank_char(#[trigger] value@[j]),
            decreases n - i,
        {
            let c = value.as_str().get_char(i);
            if !(c == ' ' || c == '\t' || c == '\n' || c == '\r') {
                proof {
                    assert(!blank_char(value@[i as int]));
                }
                return Ok(MeetingName { inner: value });
            }
            i += 1;
        }
        proof {
            assert(!valid_name(value@));
        }
        Err(MeetingNameError::InvalidName)
    }

    /// Besides handing out the text, this publishes the type invariant:
    /// whatever a caller holds a `MeetingName` of is a valid name.
    pub fn as_ref(&self) -> (r: &String)
        ensures
            r@ == self@,
            valid_name(self@),
    {
        proof {
            use_type_invariant(self);
        }
        &self.inner
    }
}

impl Clone for MeetingName {
    fn clone(&self) -> (r: Self)
        ensures
            r@ == self@,
    {
        proof {
            use_type_invariant(self);
        }
        MeetingName { inner: self.inner.clone() }
    }
}

/// The mathematical content of a `Meeting`, used throughout the contracts.
pub ghost struct MeetingView {
    pub id: u128,
    pub studio_id: u128,
    pub name: Seq<char>,
    pub date: i64,
}

/// The aggregate root: identity, owner, validated name and scheduled time.
/// A meeting is created once and never mutated afterwards.
#[derive(Debug)]
pub struct Meeting {
    pub id: MeetingId,
    pub studio_id: StudioId,
    pub name: MeetingName,
    pub date: Timestamp,
}

impl View for Meeting {
    type V = MeetingView;

    open spec fn view(&self) -> MeetingView {
        MeetingView {
            id: self.id@,
            studio_id: self.studio_id@,
            name: self.name@,
            date: self.date@,
        }
    }
}

impl Clone for Meeting {
    fn clone(&self) -> (r: Self)
        ensures
            r@ == self@,
    {
        Meeting {
            id: self.id,
            studio_id: self.studio_id,
            name: self.name.clone(),
            date: self.date,
        }
    }
}

/// The contents of a sequence of meetings, element for element.
pub open spec fn meeting_views(s: Seq<Meeting>) -> Seq<MeetingView> {
    s.map_values(|m: Meeting| m@)
}

/// The meetings of `s` owned by the given studio, in order.
pub open spec fn studio_meetings(s: Seq<MeetingView>, studio_id: u128) -> Seq<MeetingView> {
    s.filter(|m: MeetingView| m.studio_id == studio_id)
}

/// Appending a meeting extends a studio's meetings exactly when the new
/// meeting belongs to that studio.
pub proof fn lemma_studio_meetings_push(s: Seq<MeetingView>, m: MeetingView, studio_id: u128)
    ensures
        studio_meetings(s.push(m), studio_id) == if m.studio_id == studio_id {
            studio_meetings(s, studio_id).push(m)
        } else {
            studio_meetings(s, studio_id)
        },
{
    s.lemma_filter_push(m, |mm: MeetingView| mm.studio_id == studio_id);
}

/// Some meeting of the given studio is scheduled at exactly `date`.
pub open spec fn has_meeting_at(s: Seq<MeetingView>, studio_id: u128, date: i64) -> bool {
    exists|m: MeetingView| #[trigger] s.contains(m) && m.studio_id == studio_id && m.date == date
}

/// Some meeting of `s` is scheduled at exactly `date`.
pub open spec fn has_date(s: Seq<MeetingView>, date: i64) -> bool {
    exists|m: MeetingView| #[trigger] s.contains(m) && m.date == date
}

/// Some meeting of `s` carries the given identity.
pub open spec fn has_meeting_with_id(s: Seq<MeetingView>, id: u128) -> bool {
    exists|m: MeetingView| #[trigger] s.contains(m) && m.id == id
}

} // verus!
