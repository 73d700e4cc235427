//! The metadata of one track: the durable record that is cached, and the
//! entry that is shown in the track listing.

use crate::time::{clock_text, format_clock};
use vstd::prelude::*;

verus! {

/// What was extracted from one audio file. `path` is the file's name
/// without its extension, `length` is in milliseconds, and `image` is the
/// normalised cover, empty where the file has none.
#[derive(Debug, PartialEq, Eq)]
pub struct FileTrack {
    pub path: String,
    pub title: String,
    pub artist: String,
    pub length: u64,
    pub image: Vec<u8>,
}

/// The contents of a [`FileTrack`].
pub struct FileTrackView {
    pub path: Seq<char>,
    pub title: Seq<char>,
    pub artist: Seq<char>,
    pub length: u64,
    pub image: Seq<u8>,
}

impl View for FileTrack {
    type V = FileTrackView;

    open spec fn view(&self) -> FileTrackView {
        FileTrackView {
            path: self.path@,
            title: self.title@,
            artist: self.artist@,
            length: self.length,
            image: self.image@,
        }
    }
}

impl Clone for FileTrack {
    fn clone(&self) -> (copy: FileTrack)
        ensures
            copy@ == self@,
    {
        FileTrack {
            path: self.path.clone(),
            title: self.title.clone(),
            artist: self.artist.clone(),
            length: self.length,
            image: self.image.clone(),
        }
    }
}

/// One row of the track listing.
#[derive(Debug, PartialEq, Eq)]
pub struct TrackData {
    pub title: String,
    pub artist: String,
    /// The track's length as a clock label, empty while it is not known.
    pub time: String,
    /// The normalised cover, empty where there is none.
    pub cover: Vec<u8>,
    /// The track's index in the playback queue.
    pub index: usize,
    pub visible: bool,
}

/// The contents of a [`TrackData`].
pub struct TrackDataView {
    pub title: Seq<char>,
    pub artist: Seq<char>,
    pub time: Seq<char>,
    pub cover: Seq<u8>,
    pub index: usize,
    pub visible: bool,
}

impl View for TrackData {
    type V = TrackDataView;

    open spec fn view(&self) -> TrackDataView {
        TrackDataView {
            title: self.title@,
            artist: self.artist@,
            time: self.time@,
            cover: self.cover@,
            index: self.index,
            visible: self.visible,
        }
    }
}

/// The row that shows `track` at queue index `index`.
pub open spec fn row_of(track: FileTrackView, index: usize) -> TrackDataView {
    TrackDataView {
        title: track.title,
        artist: track.artist,
        time: clock_text(track.length),
        cover: track.image,
        index,
        visible: true,
    }
}

/// The row that stands for a track whose metadata is not known yet: its
/// title is the file's name, everything else is empty.
pub open spec fn placeholder_row(name: Seq<char>, index: usize) -> TrackDataView {
    TrackDataView {
        title: name,
        artist: Seq::empty(),
        time: Seq::empty(),
        cover: Seq::empty(),
        index,
        visible: true,
    }
}

impl TrackData {
    /// The visible row for `track`, at queue index 0.
    pub fn from_file_track(track: FileTrack) -> (row: TrackData)
        ensures
            row@ == row_of(track@, 0),
    {
        let time = format_clock(track.length);
        TrackData {
            title: track.title,
            artist: track.artist,
            time,
            cover: track.image,
            index: 0,
            visible: true,
        }
    }

    /// The row for `track` at queue index `index`.
    pub fn indexed(track: FileTrack, index: usize) -> (row: TrackData)
        ensures
            row@ == row_of(track@, index),
    {
        let mut row = TrackData::from_file_track(track);
        row.index = index;
        row
    }

    /// The placeholder row for the file called `name` at queue index `index`.
    pub fn placeholder(name: String, index: usize) -> (row: TrackData)
        ensures
            row@ == placeholder_row(name@, index),
    {
        TrackData {
            title: name,
            artist: String::new(),
            time: String::new(),
            cover: Vec::new(),
            index,
            visible: true,
        }
    }
}

} // verus!
