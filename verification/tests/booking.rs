use ocs_meet::adapters::memory::InMemoryMeetingRepository;
use ocs_meet::adapters::stubs::{
    StaticRoomManager, UnavailableMeetingRepository, UnavailableRoomManager,
};
use ocs_meet::domain::meeting::{Meeting, MeetingId, MeetingName};
use ocs_meet::domain::studio::StudioId;
use ocs_meet::domain::time::Timestamp;
use ocs_meet::ports::meeting_repository::MeetingRepository;
use ocs_meet::services::create_meeting::{create_meeting, plan_create_meeting, CreateMeetingError};
use ocs_meet::services::join_meeting::{check_admission, join_meeting, JoinMeetingError};
use ocs_meet::services::list_meeting::{filter_after, list_meeting, ListMeetingError};

const HOUR: i64 = 3_600_000;
const DAY: i64 = 24 * HOUR;
const T0: i64 = 1_700_000_000_000;

fn name(text: &str) -> MeetingName {
    MeetingName::try_from(text.to_string()).unwrap()
}

fn seeded(studio: StudioId, text: &str, date: i64) -> (InMemoryMeetingRepository, MeetingId) {
    let mut repo = InMemoryMeetingRepository::new();
    let meeting = Meeting {
        id: MeetingId::new(),
        studio_id: studio,
        name: name(text),
        date: Timestamp::from_millis(date),
    };
    let id = meeting.id;
    repo.create_meeting(&meeting).unwrap();
    (repo, id)
}

#[test]
fn test_create_meeting_ok() {
    let mut repo = InMemoryMeetingRepository::new();
    let studio_id = StudioId::from(7);
    let date = Timestamp::from_millis(T0);
    let today = Timestamp::from_millis(T0 - 12 * HOUR);

    let meeting = create_meeting(&mut repo, name("Hello meeting"), date, studio_id, today)
        .expect("The meeting should be created");
    assert_eq!(meeting.date, date);
    assert_eq!(meeting.studio_id, studio_id);
    assert_eq!(meeting.name.as_ref().as_str(), "Hello meeting");
}

#[test]
fn test_create_meeting_date_in_the_past() {
    let mut repo = InMemoryMeetingRepository::new();
    let studio_id = StudioId::from(7);
    let date = Timestamp::from_millis(T0 - 2 * DAY);
    let today = Timestamp::from_millis(T0);

    let Err(CreateMeetingError::DateInThePast) =
        create_meeting(&mut repo, name("Hello meeting"), date, studio_id, today)
    else {
        panic!("The meeting should not be created")
    };
    // The store was never written to.
    assert!(list_meeting(&repo, studio_id, Timestamp::from_millis(i64::MIN))
        .unwrap()
        .is_empty());
}

#[test]
fn test_create_meeting_same_date() {
    let mut repo = InMemoryMeetingRepository::new();
    let studio_id = StudioId::from(7);
    let date = Timestamp::from_millis(T0);
    let today = Timestamp::from_millis(T0 - 12 * HOUR);

    create_meeting(&mut repo, name("Another meeting"), date, studio_id, today)
        .expect("The meeting should be created");
    let Err(CreateMeetingError::DateAlreadyTaken) =
        create_meeting(&mut repo, name("Hello meeting"), date, studio_id, today)
    else {
        panic!("The meeting should not be created")
    };
}

#[test]
fn test_create_meeting_same_date_other_studio_ok() {
    let mut repo = InMemoryMeetingRepository::new();
    let date = Timestamp::from_millis(T0);
    let today = Timestamp::from_millis(T0 - 12 * HOUR);

    create_meeting(&mut repo, name("Hello meeting"), date, StudioId::from(1), today)
        .expect("The meeting should be created");
    create_meeting(&mut repo, name("Hello meeting"), date, StudioId::from(2), today)
        .expect("Another studio may book the same instant");
}

#[test]
fn test_create_meeting_at_now_ok() {
    let mut repo = InMemoryMeetingRepository::new();
    let today = Timestamp::from_millis(T0);

    create_meeting(&mut repo, name("Hello meeting"), today, StudioId::from(7), today)
        .expect("A meeting exactly at the current instant is accepted");
}

#[test]
fn test_create_meeting_store_down() {
    let mut repo = UnavailableMeetingRepository {};
    let date = Timestamp::from_millis(T0 + HOUR);
    let today = Timestamp::from_millis(T0);

    let Err(CreateMeetingError::MeetingRepository(_)) =
        create_meeting(&mut repo, name("Hello meeting"), date, StudioId::from(7), today)
    else {
        panic!("The store failure should surface")
    };
}

#[test]
fn test_not_found() {
    let repo = InMemoryMeetingRepository::new();
    let room_manager = StaticRoomManager::new("mytoken".to_string());
    let meeting_id = MeetingId::new();

    let Err(JoinMeetingError::NotFound) = join_meeting(
        &repo,
        &room_manager,
        meeting_id,
        Timestamp::from_millis(T0),
    ) else {
        panic!("The meeting should not be found");
    };
}

#[test]
fn test_too_late() {
    let studio_id = StudioId::from(7);
    let (repo, meeting_id) = seeded(studio_id, "An old meeting", T0 - 2 * DAY);
    let room_manager = StaticRoomManager::new("mytoken".to_string());

    let Err(JoinMeetingError::TooLate) = join_meeting(
        &repo,
        &room_manager,
        meeting_id,
        Timestamp::from_millis(T0),
    ) else {
        panic!("The meeting should exist but in the past");
    };
}

#[test]
fn test_ok() {
    let studio_id = StudioId::from(7);
    let (repo, meeting_id) = seeded(studio_id, "Hello there!", T0 + 2 * DAY);
    let room_manager = StaticRoomManager::new("mytoken".to_string());

    let Ok(token) = join_meeting(
        &repo,
        &room_manager,
        meeting_id,
        Timestamp::from_millis(T0),
    ) else {
        panic!("A token should be returned");
    };
    assert_eq!(token.as_ref().as_str(), "mytoken");
}

#[test]
fn test_join_at_scheduled_instant_ok() {
    let studio_id = StudioId::from(7);
    let (repo, meeting_id) = seeded(studio_id, "Hello there!", T0);
    let room_manager = StaticRoomManager::new("mytoken".to_string());

    assert!(join_meeting(&repo, &room_manager, meeting_id, Timestamp::from_millis(T0)).is_ok());
}

#[test]
fn test_join_store_down() {
    let repo = UnavailableMeetingRepository {};
    let room_manager = StaticRoomManager::new("mytoken".to_string());

    let Err(JoinMeetingError::MeetingRepository(_)) = join_meeting(
        &repo,
        &room_manager,
        MeetingId::new(),
        Timestamp::from_millis(T0),
    ) else {
        panic!("The store failure should surface");
    };
}

#[test]
fn test_join_signer_down() {
    let studio_id = StudioId::from(7);
    let (repo, meeting_id) = seeded(studio_id, "Hello there!", T0 + 2 * DAY);
    let room_manager = UnavailableRoomManager {};

    let Err(JoinMeetingError::RoomManager(_)) = join_meeting(
        &repo,
        &room_manager,
        meeting_id,
        Timestamp::from_millis(T0),
    ) else {
        panic!("The signer failure should surface");
    };
}

#[test]
fn test_create_meeting() {
    let mut repo = InMemoryMeetingRepository::new();
    let meeting = Meeting {
        id: MeetingId::new(),
        studio_id: StudioId::from(7),
        name: name("Hello meeting"),
        date: Timestamp::from_millis(T0),
    };
    repo.create_meeting(&meeting).unwrap();
    let Some(retrieved) = repo.find_meeting(&meeting.id).unwrap() else {
        panic!("A meeting should have been created")
    };
    assert_eq!(retrieved.id, meeting.id);
}

#[test]
fn test_list_meetings() {
    let mut repo = InMemoryMeetingRepository::new();
    let studio_id = StudioId::from(1);
    let other_studio = StudioId::from(2);

    let meeting_one = Meeting {
        id: MeetingId::new(),
        studio_id,
        name: name("Hello meeting"),
        date: Timestamp::from_millis(T0),
    };
    let meeting_two = Meeting {
        id: MeetingId::new(),
        studio_id,
        name: name("Hello meeting"),
        date: Timestamp::from_millis(T0),
    };
    repo.create_meeting(&meeting_one).unwrap();
    repo.create_meeting(&meeting_two).unwrap();

    let list = repo.list_meetings(&studio_id).unwrap();
    let list_2 = repo.list_meetings(&other_studio).unwrap();

    assert!(!list.is_empty());
    assert!(list_2.is_empty());
}

#[test]
fn test_filter() {
    let mut repo = InMemoryMeetingRepository::new();
    let studio_id = StudioId::from(7);
    let old_meeting = Meeting {
        id: MeetingId::new(),
        studio_id,
        name: name("I am an old meeting"),
        date: Timestamp::from_millis(T0 - 2 * DAY),
    };
    let next_meeting = Meeting {
        id: MeetingId::new(),
        studio_id,
        name: name("I am the fresh new one"),
        date: Timestamp::from_millis(T0 + 2 * DAY),
    };
    repo.create_meeting(&old_meeting).unwrap();
    repo.create_meeting(&next_meeting).unwrap();

    let meetings = list_meeting(&repo, studio_id, Timestamp::from_millis(T0)).unwrap();
    assert_eq!(meetings.len(), 1);
    assert!(meetings.iter().all(|meeting| meeting.date.millis() > T0));
    assert_eq!(
        meetings.iter().next().unwrap().name.as_ref().as_str(),
        "I am the fresh new one"
    );
}

#[test]
fn test_list_meetings_store_down() {
    let repo = UnavailableMeetingRepository {};
    let Err(ListMeetingError::MeetingRepository(_)) =
        list_meeting(&repo, StudioId::from(7), Timestamp::from_millis(T0))
    else {
        panic!("The store failure should surface");
    };
}

#[test]
fn test_readback_boundary() {
    let mut repo = InMemoryMeetingRepository::new();
    let studio_id = StudioId::from(7);
    let date = Timestamp::from_millis(T0 + HOUR);
    let today = Timestamp::from_millis(T0);

    let meeting = create_meeting(&mut repo, name("Hello meeting"), date, studio_id, today)
        .expect("The meeting should be created");

    // Listing from one second before the date includes the meeting.
    let included = list_meeting(&repo, studio_id, Timestamp::from_millis(T0 + HOUR - 1_000))
        .unwrap();
    assert!(included.iter().any(|m| m.id == meeting.id));
    // Listing from exactly the date excludes it: the bound is strict.
    let excluded = list_meeting(&repo, studio_id, date).unwrap();
    assert!(excluded.is_empty());
}

#[test]
fn test_scenario_full_booking_flow() {
    let mut repo = InMemoryMeetingRepository::new();
    let studio = StudioId::from(0x5);
    let room_manager = StaticRoomManager::new("mytoken".to_string());
    let t0 = Timestamp::from_millis(T0);

    let created = create_meeting(
        &mut repo,
        name("Standup"),
        Timestamp::from_millis(T0 + HOUR),
        studio,
        t0,
    )
    .expect("The meeting should be created");
    assert_eq!(created.date.millis(), T0 + HOUR);

    let Err(CreateMeetingError::DateAlreadyTaken) = create_meeting(
        &mut repo,
        name("Standup2"),
        Timestamp::from_millis(T0 + HOUR),
        studio,
        t0,
    ) else {
        panic!("The second meeting should collide")
    };

    let listed = list_meeting(&repo, studio, t0).unwrap();
    assert_eq!(listed.len(), 1);
    assert_eq!(listed[0].id, created.id);

    let Err(JoinMeetingError::TooLate) = join_meeting(
        &repo,
        &room_manager,
        created.id,
        Timestamp::from_millis(T0 + 2 * HOUR),
    ) else {
        panic!("Joining after the meeting should be too late")
    };

    let joined = join_meeting(
        &repo,
        &room_manager,
        created.id,
        Timestamp::from_millis(T0 + HOUR / 2),
    );
    assert!(joined.is_ok(), "A token should be returned");
}

#[test]
fn test_plan_create_meeting_decisions() {
    let today = Timestamp::from_millis(T0);
    let empty: Vec<Meeting> = Vec::new();

    let planned = plan_create_meeting(
        &empty,
        name("Hello meeting"),
        Timestamp::from_millis(T0 + HOUR),
        StudioId::from(7),
        today,
    )
    .unwrap();
    assert_eq!(planned.date.millis(), T0 + HOUR);

    let Err(CreateMeetingError::DateInThePast) = plan_create_meeting(
        &empty,
        name("Hello meeting"),
        Timestamp::from_millis(T0 - 1),
        StudioId::from(7),
        today,
    ) else {
        panic!("A past date should be rejected")
    };

    let taken = vec![planned];
    let Err(CreateMeetingError::DateAlreadyTaken) = plan_create_meeting(
        &taken,
        name("Hello meeting"),
        Timestamp::from_millis(T0 + HOUR),
        StudioId::from(7),
        today,
    ) else {
        panic!("A taken date should be rejected")
    };
}

#[test]
fn test_check_admission_decisions() {
    let today = Timestamp::from_millis(T0);
    let Err(JoinMeetingError::NotFound) = check_admission(&None, today) else {
        panic!("An absent meeting should not be admitted")
    };

    let meeting = Meeting {
        id: MeetingId::new(),
        studio_id: StudioId::from(7),
        name: name("Hello meeting"),
        date: Timestamp::from_millis(T0 - 1),
    };
    let Err(JoinMeetingError::TooLate) = check_admission(&Some(meeting), today) else {
        panic!("A passed meeting should not be admitted")
    };

    let meeting = Meeting {
        id: MeetingId::from(9),
        studio_id: StudioId::from(7),
        name: name("Hello meeting"),
        date: today,
    };
    let admitted = check_admission(&Some(meeting), today).unwrap();
    assert_eq!(admitted, MeetingId::from(9));
}

#[test]
fn test_filter_after_keeps_order() {
    let studio_id = StudioId::from(7);
    let dates = [T0 - DAY, T0 + DAY, T0, T0 + 2 * DAY];
    let meetings: Vec<Meeting> = dates
        .iter()
        .map(|d| Meeting {
            id: MeetingId::new(),
            studio_id,
            name: name("Hello meeting"),
            date: Timestamp::from_millis(*d),
        })
        .collect();
    let kept = filter_after(meetings, Timestamp::from_millis(T0));
    let kept_dates: Vec<i64> = kept.iter().map(|m| m.date.millis()).collect();
    assert_eq!(kept_dates, vec![T0 + DAY, T0 + 2 * DAY]);
}

#[test]
fn test_error_status_codes() {
    assert_eq!(CreateMeetingError::DateInThePast.status(), 400);
    assert_eq!(CreateMeetingError::DateAlreadyTaken.status(), 400);
    assert_eq!(JoinMeetingError::NotFound.status(), 404);
    assert_eq!(JoinMeetingError::TooLate.status(), 400);

    let mut repo = UnavailableMeetingRepository {};
    let today = Timestamp::from_millis(T0);
    let err = create_meeting(
        &mut repo,
        name("Hello meeting"),
        Timestamp::from_millis(T0 + HOUR),
        StudioId::from(7),
        today,
    )
    .unwrap_err();
    assert_eq!(err.status(), 500);
    let err = list_meeting(&repo, StudioId::from(7), today).unwrap_err();
    assert_eq!(err.status(), 500);
    let err = join_meeting(&repo, &UnavailableRoomManager {}, MeetingId::new(), today).unwrap_err();
    assert_eq!(err.status(), 500);
}

#[test]
fn test_livekit_token_has_jwt_shape() {
    let manager = ocs_meet::adapters::livekit::Livekit::new(
        "devkey".to_string(),
        "devsecretdevsecretdevsecretdevsecret".to_string(),
    );
    let token = ocs_meet::ports::room_manager::RoomManager::create_token(
        &manager,
        MeetingId::new(),
    )
    .expect("A token should be signed");
    let text = token.as_ref();
    assert!(!text.is_empty());
    assert_eq!(text.matches('.').count(), 2, "a JWT has three dot-separated parts");
}
