//! The event dispatch and playback coordination core of a chat-driven
//! media bot, together with the pure parts of its picture, video and song
//! generation glue.
//!
//! Nothing here performs I/O. Handlers are state machines that return the
//! effects for their caller to carry out.

pub mod bus;
pub mod fal;
pub mod handler;
pub mod json;
pub mod lyrics;
pub mod media;
pub mod playback;
pub mod playlist;
pub mod retrier;
pub mod router;
pub mod studio;
pub mod suno;
pub mod text;
pub mod types;
pub mod video;
pub mod vision;
