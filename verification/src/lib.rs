//! The core of a player for a local music library.
//!
//! * [`runner`] and [`queue`]: the playback queue and the rules by which
//!   commands and the player's reports change the state of playback.
//! * [`loader`], [`scan`], [`listing`] and [`extraction`]: the steps of
//!   loading a library directory, from choosing the audio files to storing
//!   the extracted metadata.
//! * [`cover`]: picking a track's embedded picture, the order in which the
//!   decoders are tried on it, and bringing the decoded picture to a
//!   thumbnail.
//! * [`settings`] and [`store`]: the settings record, the fingerprint of the
//!   library directory, and the compressed form of what is stored.
//!
//! Nothing here reads a file, decodes a picture, plays a sound or waits.
//! The functions take what the caller has read, and return what the caller
//! has to do. Times are whole milliseconds and volumes thousandths of full
//! volume.

pub mod cover;
pub mod extraction;
pub mod listing;
pub mod loader;
pub mod platform;
pub mod queue;
pub mod runner;
pub mod scan;
pub mod settings;
pub mod store;
pub mod text;
pub mod theme;
pub mod time;
pub mod track;
pub mod window;

pub use cover::{get_image, get_image_squared};
pub use platform::MessageRustToAndroid;
pub use scan::add_all_tracks_to_player;
pub use theme::Theme;
pub use time::TrackTime;
pub use track::{FileTrack, TrackData};
pub use window::WindowSize;
