//! The user's settings and the fingerprint of the library directory.

use crate::runner::FULL_VOLUME;
use crate::theme::Theme;
use crate::track::FileTrack;
use crate::window::{WindowSize, DEFAULT_HEIGHT, DEFAULT_WIDTH};
use vstd::prelude::*;

verus! {

/// The one settings record of an installation.
#[derive(Debug, PartialEq, Eq)]
pub struct Settings {
    /// The library directory.
    pub path: String,
    /// The volume, in thousandths of full volume.
    pub volume: u32,
    pub theme: Theme,
    pub window_size: WindowSize,
    /// Whether the window's size is kept from one session to the next.
    pub save_window_size: bool,
    pub locale: Option<String>,
    /// The fingerprint that the library directory had when the track cache
    /// was written.
    pub timestamp: Option<u64>,
}

/// The contents of a [`Settings`].
pub struct SettingsView {
    pub path: Seq<char>,
    pub volume: u32,
    pub theme: Theme,
    pub window_size: WindowSize,
    pub save_window_size: bool,
    pub locale: Option<Seq<char>>,
    pub timestamp: Option<u64>,
}

impl View for Settings {
    type V = SettingsView;

    open spec fn view(&self) -> SettingsView {
        SettingsView {
            path: self.path@,
            volume: self.volume,
            theme: self.theme,
            window_size: self.window_size,
            save_window_size: self.save_window_size,
            locale: match self.locale {
                Some(l) => Some(l@),
                None => None,
            },
            timestamp: self.timestamp,
        }
    }
}

/// The record of an installation that has stored nothing yet, for the
/// music directory `music_dir`.
pub open spec fn default_settings(music_dir: Seq<char>) -> SettingsView {
    SettingsView {
        path: music_dir,
        volume: FULL_VOLUME,
        theme: Theme::Black,
        window_size: WindowSize { width: DEFAULT_WIDTH, height: DEFAULT_HEIGHT },
        save_window_size: false,
        locale: None,
        timestamp: None,
    }
}

impl SettingsView {
    /// The stored fingerprint vouches for the directory whose fingerprint
    /// now is `live`: both are known and they are equal.
    pub open spec fn fingerprint_matches(self, live: Option<u64>) -> bool {
        self.timestamp.is_some() && live == self.timestamp
    }

    /// The record after a session that ended at `volume` with a window of
    /// `window`: the volume is kept, and so is the window's size where the
    /// user asked for that; else the size goes back to the default.
    pub open spec fn closed(self, volume: u32, window: WindowSize) -> SettingsView {
        SettingsView {
            volume,
            window_size: if self.save_window_size {
                window
            } else {
                WindowSize { width: DEFAULT_WIDTH, height: DEFAULT_HEIGHT }
            },
            ..self
        }
    }
}

impl Settings {
    /// The default record for the music directory `music_dir`.
    pub fn with_music_dir(music_dir: String) -> (settings: Settings)
        ensures
            settings@ == default_settings(music_dir@),
    {
        Settings {
            path: music_dir,
            volume: FULL_VOLUME,
            theme: Theme::Black,
            window_size: WindowSize { width: DEFAULT_WIDTH, height: DEFAULT_HEIGHT },
            save_window_size: false,
            locale: None,
            timestamp: None,
        }
    }

    /// The record to work with: the stored one where it could be read and
    /// decoded, else the default for `music_dir`.
    pub fn read_saved(stored: Option<Settings>, music_dir: String) -> (settings: Settings)
        ensures
            settings@ == match stored {
                Some(s) => s@,
                None => default_settings(music_dir@),
            },
    {
        match stored {
            Some(settings) => settings,
            None => Settings::with_music_dir(music_dir),
        }
    }

    /// The track cache to work with: the stored one where it could be read
    /// and decoded, else an empty one.
    pub fn read_tracks(stored: Option<Vec<FileTrack>>) -> (tracks: Vec<FileTrack>)
        ensures
            match stored {
                Some(t) => tracks == t,
                None => tracks@.len() == 0,
            },
    {
        match stored {
            Some(tracks) => tracks,
            None => Vec::new(),
        }
    }

    /// Tells whether the stored fingerprint is that of the library
    /// directory now; `live` is none where it could not be taken.
    pub fn check_timestamp(&self, live: Option<u64>) -> (same: bool)
        ensures
            same == self@.fingerprint_matches(live),
    {
        match (self.timestamp, live) {
            (Some(saved), Some(now)) => saved == now,
            _ => false,
        }
    }

    /// Stores the fingerprint of the library directory; where it could not
    /// be taken the stored one stays.
    pub fn save_timestamp(&mut self, live: Option<u64>)
        ensures
            final(self)@ == (SettingsView {
                timestamp: if live.is_some() {
                    live
                } else {
                    old(self)@.timestamp
                },
                ..old(self)@
            }),
    {
        match live {
            Some(now) => {
                self.timestamp = Some(now);
            },
            None => {},
        }
    }

    /// Names a new library directory.
    pub fn set_path(&mut self, path: String)
        ensures
            final(self)@ == (SettingsView { path: path@, ..old(self)@ }),
    {
        self.path = path;
    }

    /// Takes in the state at the end of a session, before the record is
    /// stored.
    pub fn close(&mut self, volume: u32, window: WindowSize)
        ensures
            final(self)@ == old(self)@.closed(volume, window),
    {
        self.volume = volume;
        if self.save_window_size {
            self.window_size = window;
        } else {
            self.window_size = WindowSize { width: DEFAULT_WIDTH, height: DEFAULT_HEIGHT };
        }
    }
}

} // verus!
