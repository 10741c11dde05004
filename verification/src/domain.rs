pub mod meeting;
pub mod room;
pub mod studio;
pub mod time;
pub mod uuid_text;
