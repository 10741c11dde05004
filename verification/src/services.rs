pub mod create_meeting;
pub mod join_meeting;
pub mod list_meeting;
