//! A terminal music player's core: the playback queue and its transport
//! decisions, the incremental library search, and the track values they share.

pub mod paths;
pub mod player;
pub mod queue;
pub mod search;
pub mod track;

pub use track::Track;
