//! Extraction of the tracks' metadata: how the work is handed to the
//! workers, what a worker makes of one file, and what is done with each
//! result that comes back.

use crate::cover::{
    cover_len, cover_pixels, needs_no_scaling, normalize_cover, CoverError, Decoded,
};
use crate::listing::track_views;
use crate::track::{row_of, FileTrack, FileTrackView, TrackData};
use vstd::prelude::*;

verus! {

/// Extraction workers per processor.
pub const WORKERS_PER_CPU: usize = 8;

/// Reports the number of processors.
///
/// Trusted: `num_cpus::get`, which counts the logical processors that the
/// process may use and never returns zero.
#[verifier::external_body]
fn available_cpus() -> (cpus: usize)
    ensures
        cpus >= 1,
{
    num_cpus::get()
}

/// The number of extraction workers for `cpus` processors.
pub fn pool_size(cpus: usize) -> (workers: usize)
    requires
        cpus * WORKERS_PER_CPU <= usize::MAX,
    ensures
        workers == cpus * WORKERS_PER_CPU,
{
    cpus * WORKERS_PER_CPU
}

/// The number of extraction workers for this machine: eight for each of
/// its processors. None where that number cannot be counted.
pub fn default_pool_size() -> (workers: Option<usize>)
    ensures
        workers matches Some(n) ==> n >= WORKERS_PER_CPU && n % WORKERS_PER_CPU == 0,
        exists|cpus: usize| cpus >= 1 && workers == pool_of(cpus),
{
    let cpus = available_cpus();
    let workers = checked_pool_size(cpus);
    assert(cpus >= 1 && workers == pool_of(cpus));
    workers
}

/// The number of extraction workers for `cpus` processors, where it can be
/// counted.
pub open spec fn pool_of(cpus: usize) -> Option<usize> {
    if cpus * WORKERS_PER_CPU <= usize::MAX {
        Some((cpus * WORKERS_PER_CPU) as usize)
    } else {
        None
    }
}

/// Computes the number of extraction workers for `cpus` processors; none
/// exactly where that number cannot be counted.
pub fn checked_pool_size(cpus: usize) -> (workers: Option<usize>)
    ensures
        workers == pool_of(cpus),
{
    if cpus <= usize::MAX / WORKERS_PER_CPU {
        Some(pool_size(cpus))
    } else {
        None
    }
}

/// The number of extraction workers where the processors cannot be
/// counted.
pub const FALLBACK_WORKERS: usize = 8;

/// The number of extraction workers to start: the one that was counted,
/// or, where none could be counted, [`FALLBACK_WORKERS`].
pub fn worker_count(counted: Option<usize>) -> (workers: usize)
    ensures
        workers == match counted {
            Some(n) => n,
            None => FALLBACK_WORKERS,
        },
{
    match counted {
        Some(n) => n,
        None => FALLBACK_WORKERS,
    }
}

/// One item of the queue that the extraction workers draw from.
#[derive(Copy, Clone, Debug, PartialEq, Eq, Structural)]
pub enum WorkItem {
    /// Extract the metadata of the track at this queue index.
    Track(usize),
    /// Nothing is left: report the end and stop.
    Stop,
}

/// The items that are handed out for a queue of `len` tracks and `workers`
/// workers: every index once, in order, then one stop for each worker.
pub open spec fn work_items(len: nat, workers: nat) -> Seq<WorkItem> {
    Seq::new(
        len + workers,
        |i: int|
            if i < len {
                WorkItem::Track(i as usize)
            } else {
                WorkItem::Stop
            },
    )
}

/// Lists the items to hand out for a queue of `len` tracks and `workers`
/// workers.
pub fn work_plan(len: usize, workers: usize) -> (items: Vec<WorkItem>)
    ensures
        items@ == work_items(len as nat, workers as nat),
{
    let mut items: Vec<WorkItem> = Vec::new();
    let mut i: usize = 0;
    while i < len
        invariant
            i <= len,
            items@ == work_items(i as nat, 0),
        decreases len - i,
    {
        items.push(WorkItem::Track(i));
        assert(items@ =~= work_items((i + 1) as nat, 0));
        i += 1;
    }
    let mut w: usize = 0;
    while w < workers
        invariant
            w <= workers,
            items@ == work_items(len as nat, w as nat),
        decreases workers - w,
    {
        items.push(WorkItem::Stop);
        assert(items@ =~= work_items(len as nat, (w + 1) as nat));
        w += 1;
    }
    items
}

/// The items for a queue hold every index of the queue once, in rising
/// order, and after them one stop for each worker.
pub proof fn lemma_work_items(len: nat, workers: nat)
    requires
        len <= usize::MAX,
    ensures
        work_items(len, workers).len() == len + workers,
        forall|i: int| 0 <= i < len ==> #[trigger] work_items(len, workers)[i] == WorkItem::Track(
            i as usize,
        ),
        forall|i: int|
            len <= i < len + workers ==> #[trigger] work_items(len, workers)[i] == WorkItem::Stop,
{
}

/// What the tag reader gives for one track.
#[derive(Debug, PartialEq, Eq)]
pub struct TrackMeta {
    pub title: String,
    pub artist: String,
    /// The track's length in milliseconds.
    pub length: u64,
}

/// Puts together the record of one track from what was read from its file:
/// `name` is the file's name without its extension, `meta` what the tag
/// reader gave, none where it failed, and `cover` the embedded picture as it
/// was decoded, none where the track has no picture or no decoder reads it.
///
/// A track whose tags cannot be read gives no record. Every other track
/// gives one, with the cover normalised and empty where there is no decoded
/// picture, unless the picture is refused as [`cover_len`] says.
pub fn extract_track(
    name: String,
    meta: Option<TrackMeta>,
    cover: Option<Decoded>,
) -> (track: Result<Option<FileTrack>, CoverError>)
    ensures
        match meta {
            None => track matches Ok(None),
            Some(m) => match cover_len(cover) {
                Ok(len) => {
                    &&& track matches Ok(Some(t))
                    &&& t@.path == name@
                    &&& t@.title == m.title@
                    &&& t@.artist == m.artist@
                    &&& t@.length == m.length
                    &&& t@.image.len() == len
                    &&& needs_no_scaling(cover) ==> t@.image == cover_pixels(cover)
                },
                Err(e) => track == Err::<Option<FileTrack>, CoverError>(e),
            },
        },
{
    let meta = match meta {
        Some(meta) => meta,
        None => {
            return Ok(None);
        },
    };
    match normalize_cover(cover) {
        Ok(image) => Ok(
            Some(
                FileTrack {
                    path: name,
                    title: meta.title,
                    artist: meta.artist,
                    length: meta.length,
                    image,
                },
            ),
        ),
        Err(e) => Err(e),
    }
}

/// What a worker has found out.
#[derive(Debug, PartialEq, Eq)]
pub enum WorkerEvent {
    /// This item was drawn from the queue of items.
    Drawn(WorkItem),
    /// The track at this queue index was read; this is its record, none
    /// where its tags could not be read.
    Extracted(usize, Option<FileTrack>),
}

/// What a worker has to do.
#[derive(Debug, PartialEq, Eq)]
pub enum WorkerAction {
    /// Read the track at this queue index, and report what came of it.
    Extract(usize),
    /// Send this message on the result channel: a record with its queue
    /// index, or the end marker.
    Send(Option<(usize, FileTrack)>),
    /// Draw the next item.
    Draw,
    /// Stop.
    Exit,
}

/// A message of the result channel: a record with its queue index, or the
/// end marker of a worker.
pub type Message = Option<(usize, FileTrackView)>;

/// The messages that are sent about one item: the end marker for a stop,
/// and for a track its record, where it has one.
pub open spec fn sent_for(item: WorkItem, records: spec_fn(usize) -> Option<FileTrackView>) -> Seq<
    Message,
> {
    match item {
        WorkItem::Stop => seq![None],
        WorkItem::Track(index) => match records(index) {
            Some(record) => seq![Some((index, record))],
            None => Seq::empty(),
        },
    }
}

/// The messages that are sent about `items`, in the order of the items.
/// Whichever worker draws which item, these are the messages that arrive,
/// each as often as it stands here.
pub open spec fn sent_all(
    items: Seq<WorkItem>,
    records: spec_fn(usize) -> Option<FileTrackView>,
) -> Seq<Message>
    decreases items.len(),
{
    if items.len() == 0 {
        Seq::empty()
    } else {
        sent_all(items.drop_last(), records) + sent_for(items.last(), records)
    }
}

/// Where every track of a queue of `len` tracks has a record, the messages
/// of a cycle with `workers` workers are one record for each queue index,
/// under that index, and one end marker for each worker.
pub proof fn lemma_cycle_messages(
    len: nat,
    workers: nat,
    records: spec_fn(usize) -> Option<FileTrackView>,
)
    requires
        len <= usize::MAX,
        forall|i: usize| i < len ==> (#[trigger] records(i)).is_some(),
    ensures
        sent_all(work_items(len, workers), records) == Seq::new(
            len + workers,
            |k: int|
                if k < len {
                    Some((k as usize, records(k as usize).unwrap()))
                } else {
                    None
                },
        ),
    decreases len + workers,
{
    let items = work_items(len, workers);
    let all = Seq::new(
        len + workers,
        |k: int|
            if k < len {
                Some((k as usize, records(k as usize).unwrap()))
            } else {
                None
            },
    );
    if workers > 0 {
        lemma_cycle_messages(len, (workers - 1) as nat, records);
        assert(items.drop_last() =~= work_items(len, (workers - 1) as nat));
        assert(items.last() == WorkItem::Stop);
        assert(sent_all(items, records) =~= all);
    } else if len > 0 {
        lemma_cycle_messages((len - 1) as nat, 0, records);
        assert(items.drop_last() =~= work_items((len - 1) as nat, 0));
        assert(items.last() == WorkItem::Track((len - 1) as usize));
        assert(records((len - 1) as usize).is_some());
        assert(sent_all(items, records) =~= all);
    } else {
        assert(sent_all(items, records) =~= all);
    }
}

/// Decides what a worker does next.
///
/// A drawn track is read. A drawn stop has the end marker sent, and ends
/// the worker. A record that was read is sent under its queue index, and
/// the next item drawn; a track without a record has only the next item
/// drawn.
pub fn worker_step(event: WorkerEvent) -> (actions: Vec<WorkerAction>)
    ensures
        match event {
            WorkerEvent::Drawn(WorkItem::Track(index)) => actions@ == seq![
                WorkerAction::Extract(index),
            ],
            WorkerEvent::Drawn(WorkItem::Stop) => actions@ == seq![
                WorkerAction::Send(None),
                WorkerAction::Exit,
            ],
            WorkerEvent::Extracted(index, Some(track)) => actions@ == seq![
                WorkerAction::Send(Some((index, track))),
                WorkerAction::Draw,
            ],
            WorkerEvent::Extracted(_, None) => actions@ == seq![WorkerAction::Draw],
        },
{
    let mut actions: Vec<WorkerAction> = Vec::new();
    match event {
        WorkerEvent::Drawn(WorkItem::Track(index)) => {
            actions.push(WorkerAction::Extract(index));
        },
        WorkerEvent::Drawn(WorkItem::Stop) => {
            actions.push(WorkerAction::Send(None));
            actions.push(WorkerAction::Exit);
        },
        WorkerEvent::Extracted(index, Some(track)) => {
            actions.push(WorkerAction::Send(Some((index, track))));
            actions.push(WorkerAction::Draw);
        },
        WorkerEvent::Extracted(_, None) => {
            actions.push(WorkerAction::Draw);
        },
    }
    actions
}

/// What the consumer of extraction results has to do with one of them.
#[derive(Debug, PartialEq, Eq)]
pub enum AggregatorAction {
    /// Replace the row at the row's index.
    Update(TrackData),
    /// Store these tracks as the cache, then the fingerprint of the
    /// directory and the settings.
    Persist(Vec<FileTrack>),
    /// A worker has ended; nothing is to be done.
    Acknowledge,
}

/// The state of an [`Aggregator`].
pub struct AggregatorView {
    /// Whether a listing was shown before.
    pub started: bool,
    /// The tracks gathered and not yet stored.
    pub tracks: Seq<FileTrackView>,
    /// The number of results taken in.
    pub loaded: usize,
    /// Whether the cache was stored in this cycle.
    pub saved: bool,
    /// The number of workers that were started.
    pub workers: usize,
    /// The number of workers that have ended.
    pub finished: usize,
}

/// One more than `count`, as far as it can be counted.
pub open spec fn counted_up(count: usize) -> usize {
    if count < usize::MAX {
        (count + 1) as usize
    } else {
        count
    }
}

/// A cycle is complete when the last of its workers has reported its end,
/// and not before.
pub proof fn lemma_complete_with_the_last_end(cycle: AggregatorView, times: nat)
    requires
        cycle.finished == 0,
        times <= cycle.workers,
    ensures
        cycle.ended_times(times).finished == times,
        cycle.ended_times(times).workers == cycle.workers,
        cycle.ended_times(times).complete() <==> times == cycle.workers,
    decreases times,
{
    if times > 0 {
        lemma_complete_with_the_last_end(cycle, (times - 1) as nat);
    }
}

/// Gathers the results of the extraction cycles, one cycle after the other.
///
/// Results are taken as they come. One that a worker of an earlier cycle
/// sent late is counted with the cycle that is under way.
#[derive(Debug)]
pub struct Aggregator {
    started: bool,
    tracks: Vec<FileTrack>,
    loaded: usize,
    saved: bool,
    workers: usize,
    finished: usize,
}

impl View for Aggregator {
    type V = AggregatorView;

    closed spec fn view(&self) -> AggregatorView {
        AggregatorView {
            started: self.started,
            tracks: track_views(self.tracks@),
            loaded: self.loaded,
            saved: self.saved,
            workers: self.workers,
            finished: self.finished,
        }
    }
}

impl AggregatorView {
    /// The state before the first listing.
    pub open spec fn idle() -> AggregatorView {
        AggregatorView {
            started: false,
            tracks: Seq::empty(),
            loaded: 0,
            saved: false,
            workers: 0,
            finished: 0,
        }
    }

    /// The state at the start of a cycle with `workers` workers.
    pub open spec fn start(workers: usize) -> AggregatorView {
        AggregatorView { started: true, workers, ..AggregatorView::idle() }
    }

    /// The state after the track `track` came in.
    pub open spec fn gathered(self, track: FileTrackView) -> AggregatorView {
        AggregatorView { tracks: self.tracks.push(track), loaded: counted_up(self.loaded), ..self }
    }

    /// The state after a worker reported its end: the first report of a
    /// cycle has the gathered tracks stored.
    pub open spec fn ended(self) -> AggregatorView {
        AggregatorView {
            tracks: if self.saved {
                self.tracks
            } else {
                Seq::empty()
            },
            saved: true,
            finished: counted_up(self.finished),
            ..self
        }
    }

    /// Every worker of the cycle has reported its end.
    pub open spec fn complete(self) -> bool {
        self.finished >= self.workers
    }

    /// The state after `times` workers reported their end.
    pub open spec fn ended_times(self, times: nat) -> AggregatorView
        decreases times,
    {
        if times == 0 {
            self
        } else {
            self.ended_times((times - 1) as nat).ended()
        }
    }

    /// The state after the tracks `tracks` came in, one after the other.
    pub open spec fn gathered_all(self, tracks: Seq<FileTrackView>) -> AggregatorView
        decreases tracks.len(),
    {
        if tracks.len() == 0 {
            self
        } else {
            self.gathered_all(tracks.drop_last()).gathered(tracks.last())
        }
    }
}

/// In a cycle in which no worker has ended yet, the tracks that came in are
/// held in the order of their arrival and counted; the first end that
/// follows finds all of them to store, and leaves none behind.
pub proof fn lemma_first_end_stores_all(workers: usize, tracks: Seq<FileTrackView>)
    ensures
        ({
            let cycle = AggregatorView::start(workers).gathered_all(tracks);
            &&& cycle.tracks == tracks
            &&& !cycle.saved
            &&& cycle.finished == 0
            &&& tracks.len() <= usize::MAX ==> cycle.loaded == tracks.len()
            &&& cycle.ended().saved
            &&& cycle.ended().tracks.len() == 0
            &&& cycle.ended().loaded == cycle.loaded
        }),
    decreases tracks.len(),
{
    if tracks.len() > 0 {
        lemma_first_end_stores_all(workers, tracks.drop_last());
        assert(tracks.drop_last().push(tracks.last()) =~= tracks);
    }
}

impl Aggregator {
    /// An aggregator that has seen no listing yet.
    pub fn new() -> (aggregator: Aggregator)
        ensures
            aggregator@ == AggregatorView::idle(),
    {
        let aggregator = Aggregator {
            started: false,
            tracks: Vec::new(),
            loaded: 0,
            saved: false,
            workers: 0,
            finished: 0,
        };
        assert(aggregator@.tracks =~= Seq::empty());
        aggregator
    }

    /// Takes in that a new listing is shown, for which `workers` workers
    /// were started. What an earlier cycle left is dropped. Returns whether
    /// the stored track cache is to be removed: it is, unless this is the
    /// first listing.
    pub fn begin_cycle(&mut self, workers: usize) -> (clear_cache: bool)
        ensures
            final(self)@ == AggregatorView::start(workers),
            clear_cache == old(self)@.started,
    {
        let clear_cache = self.started;
        self.started = true;
        self.tracks.clear();
        self.loaded = 0;
        self.saved = false;
        self.workers = workers;
        self.finished = 0;
        assert(self@.tracks =~= Seq::empty());
        clear_cache
    }

    /// Takes in one message of the result channel: a track with its queue
    /// index, or a worker's end.
    ///
    /// A track is gathered and passed on as the row for its index. The
    /// first end of a cycle has everything gathered so far stored; later
    /// ends are only counted.
    pub fn on_result(&mut self, result: Option<(usize, FileTrack)>) -> (action: AggregatorAction)
        ensures
            match result {
                Some((index, track)) => {
                    &&& final(self)@ == old(self)@.gathered(track@)
                    &&& action matches AggregatorAction::Update(row)
                    &&& row@ == row_of(track@, index)
                },
                None => {
                    &&& final(self)@ == old(self)@.ended()
                    &&& if old(self)@.saved {
                        action is Acknowledge
                    } else {
                        action matches AggregatorAction::Persist(tracks) && track_views(tracks@)
                            == old(self)@.tracks
                    }
                },
            },
    {
        match result {
            Some((index, track)) => {
                let ghost before = track_views(self.tracks@);
                self.tracks.push(track.clone());
                if self.loaded < usize::MAX {
                    self.loaded = self.loaded + 1;
                }
                assert(track_views(self.tracks@) =~= before.push(track@));
                AggregatorAction::Update(TrackData::indexed(track, index))
            },
            None => {
                if self.finished < usize::MAX {
                    self.finished = self.finished + 1;
                }
                if self.saved {
                    AggregatorAction::Acknowledge
                } else {
                    self.saved = true;
                    let mut gathered: Vec<FileTrack> = Vec::new();
                    std::mem::swap(&mut gathered, &mut self.tracks);
                    assert(track_views(self.tracks@) =~= Seq::empty());
                    AggregatorAction::Persist(gathered)
                }
            },
        }
    }

    /// The number of results taken in since the last listing.
    pub fn loaded(&self) -> (loaded: usize)
        ensures
            loaded == self@.loaded,
    {
        self.loaded
    }

    /// Whether every worker of the cycle has reported its end.
    pub fn is_complete(&self) -> (complete: bool)
        ensures
            complete == self@.complete(),
    {
        self.finished >= self.workers
    }
}

} // verus!
