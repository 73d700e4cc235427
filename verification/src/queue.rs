//! The playback queue: the tracks in the order in which they are played, and
//! the track that playback stands at.

use rand::seq::SliceRandom;
use vstd::prelude::*;

verus! {

/// The index that follows `current` in a queue of `len` tracks. From the last
/// track, and where no track was chosen yet, it is the first track. An empty
/// queue has none.
pub open spec fn next_index(current: Option<usize>, len: nat) -> Option<usize> {
    if len == 0 {
        None
    } else {
        match current {
            Some(i) if i + 1 < len => Some((i + 1) as usize),
            _ => Some(0),
        }
    }
}

/// The index that precedes `current` in a queue of `len` tracks. From the
/// first track, and where no track was chosen yet, it is the last track. An
/// empty queue has none.
pub open spec fn previous_index(current: Option<usize>, len: nat) -> Option<usize> {
    if len == 0 {
        None
    } else {
        match current {
            Some(i) if 0 < i <= len => Some((i - 1) as usize),
            _ => Some((len - 1) as usize),
        }
    }
}

/// The contents of a [`PlaybackQueue`].
pub struct QueueView {
    /// The tracks' paths, in playing order.
    pub tracks: Seq<Seq<char>>,
    /// The index of the track that playback stands at, if one was chosen.
    pub current: Option<usize>,
}

impl QueueView {
    /// The chosen index, where there is one, is that of a track.
    pub open spec fn wf(self) -> bool {
        self.current matches Some(i) ==> i < self.tracks.len()
    }
}

/// The tracks to play and the position among them.
#[derive(Debug)]
pub struct PlaybackQueue {
    tracks: Vec<String>,
    current: Option<usize>,
}

impl View for PlaybackQueue {
    type V = QueueView;

    closed spec fn view(&self) -> QueueView {
        QueueView { tracks: self.tracks.deep_view(), current: self.current }
    }
}

/// Puts `tracks` into a random order.
///
/// Trusted: `rand::seq::SliceRandom::shuffle` with `rand::thread_rng`. It
/// permutes the slice in place, so the same paths are there afterwards, each
/// as often as before; nothing is claimed of their order.
#[verifier::external_body]
fn shuffle_paths(tracks: &mut Vec<String>)
    ensures
        final(tracks).deep_view().to_multiset() == old(tracks).deep_view().to_multiset(),
{
    tracks.shuffle(&mut rand::thread_rng());
}

impl PlaybackQueue {
    /// An empty queue.
    pub fn new() -> (queue: PlaybackQueue)
        ensures
            queue@.tracks.len() == 0,
            queue@.current.is_none(),
            queue@.wf(),
    {
        let queue = PlaybackQueue { tracks: Vec::new(), current: None };
        assert(queue@.tracks =~= Seq::empty());
        queue
    }

    /// Removes every track and forgets the position.
    pub fn clear(&mut self)
        ensures
            final(self)@.tracks.len() == 0,
            final(self)@.current.is_none(),
            final(self)@.wf(),
    {
        self.tracks.clear();
        self.current = None;
    }

    /// Appends `paths` to the queue, in their order. The position stays.
    pub fn add_all(&mut self, paths: Vec<String>)
        requires
            old(self)@.wf(),
        ensures
            final(self)@.tracks == old(self)@.tracks + paths.deep_view(),
            final(self)@.current == old(self)@.current,
            final(self)@.wf(),
    {
        let mut paths = paths;
        let ghost added = paths.deep_view();
        self.tracks.append(&mut paths);
        assert(self@.tracks =~= old(self)@.tracks + added);
    }

    /// Puts the tracks into a random order. The same paths are queued
    /// afterwards, each as often as before, and the position stays.
    pub fn shuffle(&mut self)
        requires
            old(self)@.wf(),
        ensures
            final(self)@.tracks.to_multiset() == old(self)@.tracks.to_multiset(),
            final(self)@.tracks.len() == old(self)@.tracks.len(),
            final(self)@.current == old(self)@.current,
            final(self)@.wf(),
    {
        shuffle_paths(&mut self.tracks);
        proof {
            old(self)@.tracks.to_multiset_ensures();
            self@.tracks.to_multiset_ensures();
        }
    }

    /// The number of tracks.
    pub fn len(&self) -> (len: usize)
        ensures
            len == self@.tracks.len(),
    {
        self.tracks.len()
    }

    /// Whether the queue holds no track.
    pub fn is_empty(&self) -> (empty: bool)
        ensures
            empty == (self@.tracks.len() == 0),
    {
        self.tracks.len() == 0
    }

    /// The index of the track that playback stands at.
    pub fn index(&self) -> (index: Option<usize>)
        ensures
            index == self@.current,
    {
        self.current
    }

    /// The path of the track at `index`, if there is one.
    pub fn get_path_for_file(&self, index: usize) -> (path: Option<String>)
        ensures
            match path {
                Some(p) => index < self@.tracks.len() && p@ == self@.tracks[index as int],
                None => index >= self@.tracks.len(),
            },
    {
        if index < self.tracks.len() {
            Some(self.tracks[index].clone())
        } else {
            None
        }
    }

    /// The paths of all tracks, in playing order.
    pub fn queue(&self) -> (paths: Vec<String>)
        ensures
            paths.deep_view() == self@.tracks,
    {
        let paths = self.tracks.clone();
        assert(paths.deep_view() =~= self.tracks.deep_view());
        paths
    }

    /// Moves to the next track and returns its index. An empty queue is left
    /// as it is.
    pub fn advance(&mut self) -> (index: Option<usize>)
        requires
            old(self)@.wf(),
        ensures
            index == next_index(old(self)@.current, old(self)@.tracks.len()),
            final(self)@.tracks == old(self)@.tracks,
            final(self)@.current == index,
            final(self)@.wf(),
    {
        let len = self.tracks.len();
        if len == 0 {
            return None;
        }
        let next: usize = match self.current {
            Some(i) => if i + 1 < len {
                i + 1
            } else {
                0
            },
            None => 0,
        };
        self.current = Some(next);
        Some(next)
    }

    /// Moves to the previous track and returns its index. An empty queue is
    /// left as it is.
    pub fn retreat(&mut self) -> (index: Option<usize>)
        requires
            old(self)@.wf(),
        ensures
            index == previous_index(old(self)@.current, old(self)@.tracks.len()),
            final(self)@.tracks == old(self)@.tracks,
            final(self)@.current == index,
            final(self)@.wf(),
    {
        let len = self.tracks.len();
        if len == 0 {
            return None;
        }
        let previous: usize = match self.current {
            Some(i) => if i > 0 {
                i - 1
            } else {
                len - 1
            },
            None => len - 1,
        };
        self.current = Some(previous);
        Some(previous)
    }

    /// Moves to the track at `index`. Returns whether there is such a track;
    /// where there is none the queue is left as it is.
    pub fn select(&mut self, index: usize) -> (found: bool)
        requires
            old(self)@.wf(),
        ensures
            found == (index < old(self)@.tracks.len()),
            final(self)@.tracks == old(self)@.tracks,
            final(self)@.current == if found {
                Some(index)
            } else {
                old(self)@.current
            },
            final(self)@.wf(),
    {
        if index < self.tracks.len() {
            self.current = Some(index);
            true
        } else {
            false
        }
    }
}

} // verus!
