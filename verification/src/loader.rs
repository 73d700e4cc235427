//! The library loader: the steps of a load cycle, from the request for a
//! directory to the end of extraction.
//!
//! The loader reads no directory and no file itself. Each step takes in
//! what the caller has found out and returns what is to be done next, in
//! order.

use crate::extraction::{work_items, work_plan, WorkItem};
use crate::listing::{cache_valid, initial_listing, is_cached, listing, row_views, track_views};
use crate::queue::QueueView;
use crate::runner::{PlaybackState, PlayerAction, Runner, RunnerView};
use crate::scan::{add_all_tracks_to_player, audio_paths, file_views, ScannedFile};
use crate::settings::{Settings, SettingsView};
use crate::time::TrackTime;
use crate::track::{FileTrack, TrackData, TrackDataView};
use vstd::prelude::*;

verus! {

/// A request to load a library directory.
#[derive(Debug)]
pub struct LoadRequest {
    /// The directory; empty where the user is to choose one.
    pub path: String,
    /// Whether cached metadata may stand in for extraction.
    pub check_cache: bool,
}

impl LoadRequest {
    /// Whether the directory has to be asked for: no path is given and the
    /// cache is not to be used.
    pub open spec fn asks_directory(&self) -> bool {
        self.path@.len() == 0 && !self.check_cache
    }

    /// Tells whether the directory has to be asked for.
    pub fn needs_directory(&self) -> (ask: bool)
        ensures
            ask == self.asks_directory(),
    {
        self.path.as_str().is_empty() && !self.check_cache
    }
}

/// What is done about a library directory once its queue is loaded.
#[derive(Debug, PartialEq, Eq)]
pub struct LoadPlan {
    /// The rows to show at once.
    pub listing: Vec<TrackData>,
    /// Whether the listing comes from the cache, so that nothing is
    /// extracted.
    pub cached: bool,
    /// The number of extraction workers to start.
    pub workers: usize,
    /// The items to hand to the workers, in order.
    pub items: Vec<WorkItem>,
}

/// Plans the load of a directory whose queue of `len` tracks was loaded.
/// `names` holds, for each queue index, the track's file name without its
/// extension; `use_cache` says whether the cached metadata may be used, and
/// `workers` how many workers extraction would get.
///
/// There is no plan where `names` does not hold one name for each track of
/// the queue. With the cache, the listing comes from it and no worker is
/// started. Without it, every track gets a placeholder, and the workers get
/// every index and a stop each.
pub fn plan_load(
    len: usize,
    names: &Vec<String>,
    cached: &Vec<FileTrack>,
    use_cache: bool,
    workers: usize,
) -> (plan: Option<LoadPlan>)
    ensures
        plan.is_some() == (names@.len() == len),
        plan matches Some(p) ==> {
            &&& row_views(p.listing@) == listing(names.deep_view(), track_views(cached@), use_cache)
            &&& p.cached == use_cache
            &&& p.workers == if use_cache {
                0
            } else {
                workers
            }
            &&& p.items@ == if use_cache {
                Seq::empty()
            } else {
                work_items(len as nat, workers as nat)
            }
        },
{
    if names.len() != len {
        return None;
    }
    let listing = initial_listing(names, cached, use_cache);
    if use_cache {
        Some(LoadPlan { listing, cached: true, workers: 0, items: Vec::new() })
    } else {
        Some(LoadPlan { listing, cached: false, workers, items: work_plan(len, workers) })
    }
}

/// Where the loader stands in a load cycle.
#[derive(Copy, Clone, Debug, PartialEq, Eq, Structural)]
pub enum LoaderPhase {
    /// No cycle is under way.
    Idle,
    /// The user is choosing the directory.
    AskingDirectory,
    /// The directory is being read.
    Scanning { check_cache: bool },
    /// The directory's fingerprint is being taken and the track cache read.
    ReadingCache { check_cache: bool },
    /// The workers are extracting.
    Extracting,
}

/// What the caller has found out for the loader.
#[derive(Debug)]
pub enum LoaderEvent {
    /// A directory is to be loaded.
    Request(LoadRequest),
    /// The user has chosen this directory.
    Directory(String),
    /// These are the entries of the directory.
    Scanned(Vec<ScannedFile>),
    /// The fingerprint of the directory is `live`, none where it could not
    /// be taken; the track cache holds `cached`; and `names` holds, for each
    /// queue index, the track's file name without its extension.
    CacheRead { live: Option<u64>, cached: Vec<FileTrack>, names: Vec<String> },
    /// Every worker has ended.
    WorkersDone,
}

/// What the caller has to do for the loader.
#[derive(Debug, PartialEq, Eq)]
pub enum LoaderAction {
    /// Let the user choose the directory, and report it.
    AskDirectory,
    /// Store the settings.
    SaveSettings,
    /// Hand this request to the track player.
    Player(PlayerAction),
    /// Read the entries of this directory, and report them.
    Scan(String),
    /// Give the track player these tracks, in this order, in place of those
    /// it had.
    AddAll(Vec<String>),
    /// Take the fingerprint of the library directory, read the track cache,
    /// strip the extensions off the queue's file names, and report all three.
    ReadCache,
    /// Show these rows in place of the listing; `workers` workers will send
    /// results for them.
    ShowListing { rows: Vec<TrackData>, workers: usize },
    /// Start `workers` workers, hand them `items` in order, and report when
    /// all of them have ended.
    StartWorkers { workers: usize, items: Vec<WorkItem> },
}

/// The runner as a load cycle leaves it before the directory at `path` is
/// read: stopped, with an empty queue.
pub open spec fn reset_runner(runner: RunnerView, path: Seq<char>) -> RunnerView {
    RunnerView {
        path,
        queue: QueueView { tracks: Seq::empty(), current: None },
        state: PlaybackState::Stopped,
        time: TrackTime { position: 0, length: 0 },
        volume: runner.volume,
    }
}

/// `actions` stop the player and ask for the entries of `path`.
pub open spec fn asks_scan(actions: Seq<LoaderAction>, path: Seq<char>) -> bool {
    &&& actions.len() == 2
    &&& actions[0] == LoaderAction::Player(PlayerAction::EndCurrent)
    &&& actions[1] matches LoaderAction::Scan(p) && p@ == path
}

/// `action` shows `rows` for a cycle with `workers` workers.
pub open spec fn shows(action: LoaderAction, rows: Seq<TrackDataView>, workers: usize) -> bool {
    action matches LoaderAction::ShowListing { rows: r, workers: w } && row_views(r@) == rows && w
        == workers
}

/// The state of a [`Loader`].
pub struct LoaderView {
    pub phase: LoaderPhase,
    /// The number of workers of an extraction.
    pub workers: usize,
}

/// The steps of the load cycles, one cycle after the other.
#[derive(Debug)]
pub struct Loader {
    phase: LoaderPhase,
    workers: usize,
}

impl View for Loader {
    type V = LoaderView;

    closed spec fn view(&self) -> LoaderView {
        LoaderView { phase: self.phase, workers: self.workers }
    }
}

impl Loader {
    /// An idle loader whose extractions get `workers` workers.
    pub fn new(workers: usize) -> (loader: Loader)
        ensures
            loader@ == (LoaderView { phase: LoaderPhase::Idle, workers }),
    {
        Loader { phase: LoaderPhase::Idle, workers }
    }

    /// Where the loader stands.
    pub fn phase(&self) -> (phase: LoaderPhase)
        ensures
            phase == self@.phase,
    {
        self.phase
    }

    /// Resets the runner for the directory at `path` and asks for its
    /// entries, after `before`.
    fn begin(
        &mut self,
        runner: &mut Runner,
        path: String,
        check_cache: bool,
        before: Vec<LoaderAction>,
    ) -> (actions: Vec<LoaderAction>)
        ensures
            final(self)@ == (LoaderView {
                phase: LoaderPhase::Scanning { check_cache },
                ..old(self)@
            }),
            final(runner)@ == reset_runner(old(runner)@, path@),
            final(runner)@.wf(),
            actions@.len() == before@.len() + 2,
            actions@.take(before@.len() as int) == before@,
            asks_scan(actions@.skip(before@.len() as int), path@),
    {
        let mut actions = before;
        let stop = runner.clear();
        runner.set_path(path.clone());
        actions.push(LoaderAction::Player(stop[0]));
        actions.push(LoaderAction::Scan(path));
        self.phase = LoaderPhase::Scanning { check_cache };
        assert(actions@.take(before@.len() as int) =~= before@);
        assert(actions@.skip(before@.len() as int) =~= seq![
            actions@[before@.len() as int],
            actions@[before@.len() as int + 1],
        ]);
        actions
    }

    /// Takes one step of a load cycle.
    ///
    /// * Idle, on a request: where the directory has to be asked for, asks
    ///   for it; else stops the player, empties the queue and asks for the
    ///   entries of the directory.
    /// * On the chosen directory: stores it in the settings, has them
    ///   saved, and goes on as for a request with that path.
    /// * On the entries: loads the audio files among them into the queue,
    ///   in a random order, hands the queue to the player, and asks for the
    ///   fingerprint, the cache and the names.
    /// * On those: shows the listing; where it comes from the cache the
    ///   cycle ends, else the workers are started. Where the names are not
    ///   one for each track of the queue, the cycle ends with nothing shown.
    /// * On the end of the workers: the cycle ends.
    ///
    /// An event that the phase does not wait for changes nothing.
    pub fn step(
        &mut self,
        runner: &mut Runner,
        settings: &mut Settings,
        event: LoaderEvent,
    ) -> (actions: Vec<LoaderAction>)
        requires
            old(runner)@.wf(),
        ensures
            final(runner)@.wf(),
            final(self)@.workers == old(self)@.workers,
            match (old(self)@.phase, event) {
                (LoaderPhase::Idle, LoaderEvent::Request(request)) => if request.asks_directory() {
                    &&& final(self)@.phase == LoaderPhase::AskingDirectory
                    &&& final(runner)@ == old(runner)@
                    &&& final(settings)@ == old(settings)@
                    &&& actions@ == seq![LoaderAction::AskDirectory]
                } else {
                    &&& final(self)@.phase == (LoaderPhase::Scanning {
                        check_cache: request.check_cache,
                    })
                    &&& final(runner)@ == reset_runner(old(runner)@, request.path@)
                    &&& final(settings)@ == old(settings)@
                    &&& asks_scan(actions@, request.path@)
                },
                (LoaderPhase::AskingDirectory, LoaderEvent::Directory(path)) => {
                    &&& final(self)@.phase == (LoaderPhase::Scanning { check_cache: false })
                    &&& final(runner)@ == reset_runner(old(runner)@, path@)
                    &&& final(settings)@ == (SettingsView { path: path@, ..old(settings)@ })
                    &&& actions@.len() == 3
                    &&& actions@[0] == LoaderAction::SaveSettings
                    &&& asks_scan(actions@.skip(1), path@)
                },
                (LoaderPhase::Scanning { check_cache }, LoaderEvent::Scanned(files)) => {
                    &&& final(self)@.phase == (LoaderPhase::ReadingCache { check_cache })
                    &&& final(settings)@ == old(settings)@
                    &&& final(runner)@.queue.tracks.to_multiset() == (old(runner)@.queue.tracks
                        + audio_paths(file_views(files@))).to_multiset()
                    &&& final(runner)@.queue.tracks.len() == old(runner)@.queue.tracks.len()
                        + audio_paths(file_views(files@)).len()
                    &&& final(runner)@ == (RunnerView {
                        queue: QueueView {
                            tracks: final(runner)@.queue.tracks,
                            ..old(runner)@.queue
                        },
                        ..old(runner)@
                    })
                    &&& actions@.len() == 2
                    &&& actions@[0] matches LoaderAction::AddAll(paths) && paths.deep_view()
                        == final(runner)@.queue.tracks
                    &&& actions@[1] == LoaderAction::ReadCache
                },
                (
                    LoaderPhase::ReadingCache { check_cache },
                    LoaderEvent::CacheRead { live, cached, names },
                ) => {
                    let use_cache = cache_valid(
                        old(settings)@.fingerprint_matches(live),
                        cached@.len(),
                        check_cache,
                    );
                    let rows = listing(names.deep_view(), track_views(cached@), use_cache);
                    &&& final(runner)@ == old(runner)@
                    &&& final(settings)@ == old(settings)@
                    &&& if names@.len() != old(runner)@.len() {
                        &&& final(self)@.phase == LoaderPhase::Idle
                        &&& actions@.len() == 0
                    } else if use_cache {
                        &&& final(self)@.phase == LoaderPhase::Idle
                        &&& actions@.len() == 1
                        &&& shows(actions@[0], rows, 0)
                    } else {
                        &&& final(self)@.phase == LoaderPhase::Extracting
                        &&& actions@.len() == 2
                        &&& shows(actions@[0], rows, old(self)@.workers)
                        &&& actions@[1] matches LoaderAction::StartWorkers { workers, items }
                            && workers == old(self)@.workers && items@ == work_items(
                            old(runner)@.len(),
                            workers as nat,
                        )
                    }
                },
                (LoaderPhase::Extracting, LoaderEvent::WorkersDone) => {
                    &&& final(self)@.phase == LoaderPhase::Idle
                    &&& final(runner)@ == old(runner)@
                    &&& final(settings)@ == old(settings)@
                    &&& actions@.len() == 0
                },
                _ => {
                    &&& final(self)@ == old(self)@
                    &&& final(runner)@ == old(runner)@
                    &&& final(settings)@ == old(settings)@
                    &&& actions@.len() == 0
                },
            },
    {
        let mut actions: Vec<LoaderAction> = Vec::new();
        match (self.phase, event) {
            (LoaderPhase::Idle, LoaderEvent::Request(request)) => {
                if request.needs_directory() {
                    self.phase = LoaderPhase::AskingDirectory;
                    actions.push(LoaderAction::AskDirectory);
                    assert(actions@ =~= seq![LoaderAction::AskDirectory]);
                } else {
                    actions = self.begin(runner, request.path, request.check_cache, actions);
                    assert(actions@.skip(0) =~= actions@);
                }
            },
            (LoaderPhase::AskingDirectory, LoaderEvent::Directory(path)) => {
                settings.set_path(path.clone());
                actions.push(LoaderAction::SaveSettings);
                actions = self.begin(runner, path, false, actions);
                assert(actions@[0] == actions@.take(1)[0]);
            },
            (LoaderPhase::Scanning { check_cache }, LoaderEvent::Scanned(files)) => {
                add_all_tracks_to_player(runner, &files);
                actions.push(LoaderAction::AddAll(runner.queue()));
                actions.push(LoaderAction::ReadCache);
                self.phase = LoaderPhase::ReadingCache { check_cache };
            },
            (
                LoaderPhase::ReadingCache { check_cache },
                LoaderEvent::CacheRead { live, cached, names },
            ) => {
                let use_cache = is_cached(settings, live, &cached, check_cache);
                match plan_load(runner.len(), &names, &cached, use_cache, self.workers) {
                    Some(plan) => {
                        actions.push(
                            LoaderAction::ShowListing { rows: plan.listing, workers: plan.workers },
                        );
                        if plan.cached {
                            self.phase = LoaderPhase::Idle;
                        } else {
                            actions.push(
                                LoaderAction::StartWorkers {
                                    workers: plan.workers,
                                    items: plan.items,
                                },
                            );
                            self.phase = LoaderPhase::Extracting;
                        }
                    },
                    None => {
                        self.phase = LoaderPhase::Idle;
                    },
                }
            },
            (LoaderPhase::Extracting, LoaderEvent::WorkersDone) => {
                self.phase = LoaderPhase::Idle;
            },
            _ => {},
        }
        actions
    }
}

} // verus!
