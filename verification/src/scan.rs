//! Choosing the audio files among the entries of the library directory and
//! loading them into the runner's queue.

use crate::runner::Runner;
use crate::text::{contains, contains_text};
use vstd::prelude::*;

verus! {

/// The media type that the signature tables of the `infer` crate give to a
/// file that starts with `head`; none where no signature matches.
pub uninterp spec fn sniffed_mime(head: Seq<u8>) -> Option<Seq<char>>;

/// Looks up the media type of content that starts with `head`.
///
/// Trusted: `infer::get`, which matches the bytes against a fixed table of
/// signatures, and `infer::Type::mime_type`, which reads the media type of
/// the entry found. The result depends on the bytes alone.
#[verifier::external_body]
fn infer_mime(head: &[u8]) -> (mime: Option<String>)
    ensures
        mime.deep_view() == sniffed_mime(head@),
{
    infer::get(head).map(|kind| kind.mime_type().to_string())
}

/// A media type counts as audio where it holds the word `audio`.
pub open spec fn audio_mime(mime: Seq<char>) -> bool {
    contains_text(mime, "audio"@)
}

/// One entry of the library directory.
#[derive(Debug, PartialEq, Eq)]
pub struct ScannedFile {
    /// The entry's full path.
    pub path: String,
    /// Whether the entry is a regular file, not a directory or a link.
    pub is_file: bool,
    /// The media type found in the file's content, if any.
    pub mime: Option<String>,
}

/// The contents of a [`ScannedFile`].
pub struct ScannedFileView {
    pub path: Seq<char>,
    pub is_file: bool,
    pub mime: Option<Seq<char>>,
}

impl View for ScannedFile {
    type V = ScannedFileView;

    open spec fn view(&self) -> ScannedFileView {
        ScannedFileView {
            path: self.path@,
            is_file: self.is_file,
            mime: match self.mime {
                Some(m) => Some(m@),
                None => None,
            },
        }
    }
}

impl ScannedFileView {
    /// The entry is a regular file whose content has an audio media type.
    pub open spec fn is_audio(self) -> bool {
        self.is_file && match self.mime {
            Some(m) => audio_mime(m),
            None => false,
        }
    }
}

/// The paths of the audio files among `files`, in the order of `files`.
pub open spec fn audio_paths(files: Seq<ScannedFileView>) -> Seq<Seq<char>>
    decreases files.len(),
{
    if files.len() == 0 {
        Seq::empty()
    } else {
        let before = audio_paths(files.drop_last());
        if files.last().is_audio() {
            before.push(files.last().path)
        } else {
            before
        }
    }
}

/// The views of `files`, in order.
pub open spec fn file_views(files: Seq<ScannedFile>) -> Seq<ScannedFileView> {
    files.map_values(|f: ScannedFile| f@)
}

/// Finds the media type of a file from the bytes that it starts with.
pub fn sniff(head: &[u8]) -> (mime: Option<String>)
    ensures
        mime.deep_view() == sniffed_mime(head@),
{
    infer_mime(head)
}

/// Tells whether `mime` is an audio media type.
pub fn is_audio_mime(mime: &str) -> (audio: bool)
    ensures
        audio == audio_mime(mime@),
{
    contains(mime, "audio")
}

impl ScannedFile {
    /// Tells whether the entry is an audio file.
    pub fn is_audio(&self) -> (audio: bool)
        ensures
            audio == self@.is_audio(),
    {
        if !self.is_file {
            return false;
        }
        match &self.mime {
            Some(m) => is_audio_mime(m.as_str()),
            None => false,
        }
    }
}

/// Collects the paths of the audio files among `files`, in their order.
pub fn collect_audio_paths(files: &Vec<ScannedFile>) -> (paths: Vec<String>)
    ensures
        paths.deep_view() == audio_paths(file_views(files@)),
{
    let mut paths: Vec<String> = Vec::new();
    let mut seen: usize = 0;
    assert(file_views(files@).take(0) =~= Seq::empty());
    assert(paths.deep_view() =~= Seq::empty());
    while seen < files.len()
        invariant
            seen <= files.len(),
            paths.deep_view() == audio_paths(file_views(files@).take(seen as int)),
        decreases files.len() - seen,
    {
        let ghost before = paths.deep_view();
        proof {
            let upto = file_views(files@).take(seen + 1);
            assert(upto.drop_last() =~= file_views(files@).take(seen as int));
            assert(upto.last() == files@[seen as int]@);
        }
        if files[seen].is_audio() {
            paths.push(files[seen].path.clone());
            assert(paths.deep_view() =~= before.push(files@[seen as int]@.path));
        }
        seen += 1;
    }
    assert(file_views(files@).take(seen as int) =~= file_views(files@));
    paths
}

/// Loads the audio files among `files` into the runner's queue and puts the
/// queue into a random order. Afterwards the queue holds what it held before
/// and the paths of those files, each as often as it was there; the position
/// and everything else stay as they were.
pub fn add_all_tracks_to_player(runner: &mut Runner, files: &Vec<ScannedFile>)
    requires
        old(runner)@.wf(),
    ensures
        final(runner)@.queue.tracks.to_multiset() == (old(runner)@.queue.tracks + audio_paths(
            file_views(files@),
        )).to_multiset(),
        final(runner)@.queue.tracks.len() == old(runner)@.queue.tracks.len() + audio_paths(
            file_views(files@),
        ).len(),
        final(runner)@.queue.current == old(runner)@.queue.current,
        final(runner)@.state == old(runner)@.state,
        final(runner)@.volume == old(runner)@.volume,
        final(runner)@.time == old(runner)@.time,
        final(runner)@.path == old(runner)@.path,
        final(runner)@.wf(),
{
    let paths = collect_audio_paths(files);
    runner.add_all(paths);
    runner.shuffle();
}

} // verus!
