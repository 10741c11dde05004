pub mod livekit;
pub mod memory;
pub mod stubs;
