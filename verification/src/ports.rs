pub mod meeting_repository;
pub mod room_manager;
