//! The playback runner: the state of playback and the rules by which commands
//! and the player's reports change it.
//!
//! The runner does not drive the audio output itself. Each rule returns the
//! requests that the caller has to hand to the track player, in order.

use crate::queue::{next_index, previous_index, PlaybackQueue, QueueView};
use crate::time::{clock_text, TrackTime};
use vstd::prelude::*;

verus! {

/// The volume of unattenuated output, in thousandths.
pub const FULL_VOLUME: u32 = 1000;

/// A position above which "previous" restarts the track, in milliseconds.
pub const RESTART_THRESHOLD: u64 = 3000;

/// Where to move the playback position. Times are in milliseconds.
#[derive(Copy, Clone, Debug, PartialEq, Eq, Structural)]
pub enum Seek {
    /// To this position in the track.
    Absolute(u64),
    /// By this much from the current position, backwards where negative.
    Relative(i64),
}

/// A command to the runner.
#[derive(Copy, Clone, Debug, PartialEq, Eq, Structural)]
pub enum RunnerMessage {
    PlayNext,
    PlayPrevious,
    TogglePause,
    Pause,
    Play,
    /// Set the volume, in thousandths of full volume.
    SetVolume(u32),
    /// Play the track at this index of the queue.
    PlayTrack(usize),
    Seek(Seek),
}

/// A request to the track player.
#[derive(Copy, Clone, Debug, PartialEq, Eq, Structural)]
pub enum PlayerAction {
    /// Stop the track that is playing, if any.
    EndCurrent,
    /// Start the track at this index of the queue.
    PlayIndex(usize),
    Pause,
    Unpause,
    /// Move to `seconds` whole seconds and `millis` thousandths of a second.
    SeekTo { seconds: u64, millis: u32 },
    /// Set the volume, in thousandths of full volume.
    SetVolume(u32),
}

/// What the current track slot is doing.
#[derive(Copy, Clone, Debug, PartialEq, Eq, Structural)]
pub enum PlaybackState {
    /// No track was started.
    Stopped,
    Playing,
    Paused,
}

/// The position that `seek` asks for when playback stands at `position`:
/// the absolute time itself, or the sum, kept within `0..=u64::MAX`.
pub open spec fn seek_target(position: u64, seek: Seek) -> u64 {
    match seek {
        Seek::Absolute(to) => to,
        Seek::Relative(by) => {
            let sum = position + by;
            if sum < 0 {
                0
            } else if sum > u64::MAX {
                u64::MAX
            } else {
                sum as u64
            }
        },
    }
}

/// The request that moves playback to `target` milliseconds, split into
/// whole seconds and the thousandths left over.
pub open spec fn seek_action(target: u64) -> PlayerAction {
    PlayerAction::SeekTo { seconds: target / 1000, millis: (target % 1000) as u32 }
}

/// The state of a [`Runner`].
pub struct RunnerView {
    /// The directory that the queue was loaded from.
    pub path: Seq<char>,
    pub queue: QueueView,
    pub state: PlaybackState,
    /// The volume, in thousandths of full volume.
    pub volume: u32,
    /// The time last reported by the player.
    pub time: TrackTime,
}

/// A state together with the requests that led to it.
pub struct Outcome {
    pub state: RunnerView,
    pub actions: Seq<PlayerAction>,
}

impl RunnerView {
    /// The position is that of a track, and a track was chosen exactly when
    /// one was started.
    pub open spec fn wf(self) -> bool {
        &&& self.queue.wf()
        &&& self.queue.current.is_some() <==> self.state != PlaybackState::Stopped
    }

    /// The number of queued tracks.
    pub open spec fn len(self) -> nat {
        self.queue.tracks.len()
    }

    /// Playback of the track at `index` has begun; `actions` asked for it.
    pub open spec fn started(self, index: usize, actions: Seq<PlayerAction>) -> Outcome {
        Outcome {
            state: RunnerView {
                queue: QueueView { current: Some(index), ..self.queue },
                state: PlaybackState::Playing,
                ..self
            },
            actions,
        }
    }

    /// Nothing changes and nothing is asked of the player.
    pub open spec fn unchanged(self) -> Outcome {
        Outcome { state: self, actions: Seq::empty() }
    }

    /// The follower of the current track is started, without stopping the
    /// current one first. With an empty queue nothing happens.
    pub open spec fn start_next(self) -> Outcome {
        match next_index(self.queue.current, self.len()) {
            Some(next) => self.started(next, seq![PlayerAction::PlayIndex(next)]),
            None => self.unchanged(),
        }
    }

    /// What one command does. While no track was started there is no
    /// position to move: seeking, and restarting by "previous", ask nothing
    /// of the player then and change nothing.
    pub open spec fn apply(self, message: RunnerMessage) -> Outcome {
        match message {
            RunnerMessage::PlayNext => match next_index(self.queue.current, self.len()) {
                Some(next) => self.started(
                    next,
                    seq![PlayerAction::EndCurrent, PlayerAction::PlayIndex(next)],
                ),
                None => self.unchanged(),
            },
            RunnerMessage::PlayPrevious => if self.time.position > RESTART_THRESHOLD {
                if self.state == PlaybackState::Stopped {
                    self.unchanged()
                } else {
                    Outcome { state: self, actions: seq![seek_action(0)] }
                }
            } else {
                match previous_index(self.queue.current, self.len()) {
                    Some(previous) => self.started(
                        previous,
                        seq![PlayerAction::EndCurrent, PlayerAction::PlayIndex(previous)],
                    ),
                    None => self.unchanged(),
                }
            },
            RunnerMessage::TogglePause => match self.state {
                PlaybackState::Playing => Outcome {
                    state: RunnerView { state: PlaybackState::Paused, ..self },
                    actions: seq![PlayerAction::Pause],
                },
                PlaybackState::Paused => Outcome {
                    state: RunnerView { state: PlaybackState::Playing, ..self },
                    actions: seq![PlayerAction::Unpause],
                },
                PlaybackState::Stopped => self.start_next(),
            },
            RunnerMessage::Pause => match self.state {
                PlaybackState::Stopped => self.unchanged(),
                _ => Outcome {
                    state: RunnerView { state: PlaybackState::Paused, ..self },
                    actions: seq![PlayerAction::Pause],
                },
            },
            RunnerMessage::Play => match self.state {
                PlaybackState::Stopped => self.start_next(),
                _ => Outcome {
                    state: RunnerView { state: PlaybackState::Playing, ..self },
                    actions: seq![PlayerAction::Unpause],
                },
            },
            RunnerMessage::SetVolume(volume) => Outcome {
                state: RunnerView { volume, ..self },
                actions: seq![PlayerAction::SetVolume(volume)],
            },
            RunnerMessage::PlayTrack(index) => if index < self.len() {
                self.started(index, seq![PlayerAction::EndCurrent, PlayerAction::PlayIndex(index)])
            } else {
                self.unchanged()
            },
            RunnerMessage::Seek(seek) => if self.state == PlaybackState::Stopped {
                self.unchanged()
            } else {
                Outcome {
                    state: self,
                    actions: seq![seek_action(seek_target(self.time.position, seek))],
                }
            },
        }
    }

    /// What a run of commands does, applied in their order.
    pub open spec fn apply_all(self, messages: Seq<RunnerMessage>) -> Outcome
        decreases messages.len(),
    {
        if messages.len() == 0 {
            self.unchanged()
        } else {
            let before = self.apply_all(messages.drop_last());
            let last = before.state.apply(messages.last());
            Outcome { state: last.state, actions: before.actions + last.actions }
        }
    }

    /// What the player's report does: a reported time replaces the stored
    /// one, and where the track has ended its follower is started. With an
    /// empty queue an ended track leaves playback stopped.
    pub open spec fn refresh(self, time: Option<TrackTime>, ended: bool) -> Outcome {
        let timed = RunnerView {
            time: match time {
                Some(t) => t,
                None => self.time,
            },
            ..self
        };
        if ended {
            timed.start_next()
        } else {
            timed.unchanged()
        }
    }
}

/// Every command leaves the state well formed and the queued tracks as
/// they were, and asks the player for no track that is not in the queue.
pub proof fn lemma_apply_in_bounds(state: RunnerView, message: RunnerMessage)
    requires
        state.wf(),
    ensures
        state.apply(message).state.wf(),
        state.apply(message).state.queue.tracks == state.queue.tracks,
        state.apply(message).state.path == state.path,
        forall|k: int|
            0 <= k < state.apply(message).actions.len() ==> match #[trigger] state.apply(
                message,
            ).actions[k] {
                PlayerAction::PlayIndex(index) => index < state.len(),
                _ => true,
            },
{
}

/// A run of commands leaves the state well formed and the queued tracks as
/// they were.
pub proof fn lemma_apply_all_keeps_wf(state: RunnerView, messages: Seq<RunnerMessage>)
    requires
        state.wf(),
    ensures
        state.apply_all(messages).state.wf(),
        state.apply_all(messages).state.queue.tracks == state.queue.tracks,
    decreases messages.len(),
{
    if messages.len() > 0 {
        lemma_apply_all_keeps_wf(state, messages.drop_last());
        lemma_apply_in_bounds(state.apply_all(messages.drop_last()).state, messages.last());
    }
}

/// Commands are applied in the order of their arrival: a run of commands
/// followed by another does what the first does and then, from the state
/// that it leaves, what the second does.
pub proof fn lemma_apply_all_in_order(
    state: RunnerView,
    first: Seq<RunnerMessage>,
    second: Seq<RunnerMessage>,
)
    ensures
        state.apply_all(first + second).state == state.apply_all(first).state.apply_all(
            second,
        ).state,
        state.apply_all(first + second).actions == state.apply_all(first).actions
            + state.apply_all(first).state.apply_all(second).actions,
    decreases second.len(),
{
    let middle = state.apply_all(first);
    if second.len() == 0 {
        assert(first + second =~= first);
        assert(middle.actions + middle.state.apply_all(second).actions =~= middle.actions);
    } else {
        lemma_apply_all_in_order(state, first, second.drop_last());
        assert((first + second).drop_last() =~= first + second.drop_last());
        assert((first + second).last() == second.last());
        let before = middle.state.apply_all(second.drop_last());
        let last = before.state.apply(second.last());
        assert(state.apply_all(first + second).actions =~= middle.actions + (before.actions
            + last.actions));
    }
}

/// The player's report leaves the state well formed and the queued tracks
/// as they were, and asks the player for no track that is not in the queue.
pub proof fn lemma_refresh_in_bounds(state: RunnerView, time: Option<TrackTime>, ended: bool)
    requires
        state.wf(),
    ensures
        state.refresh(time, ended).state.wf(),
        state.refresh(time, ended).state.queue.tracks == state.queue.tracks,
        forall|k: int|
            0 <= k < state.refresh(time, ended).actions.len() ==> match #[trigger] state.refresh(
                time,
                ended,
            ).actions[k] {
                PlayerAction::PlayIndex(index) => index < state.len(),
                _ => true,
            },
{
}

/// With an empty queue every command leaves the queue empty and playback
/// stopped. Setting the volume is handed on to the player; every other
/// command asks nothing of the player and changes nothing.
pub proof fn lemma_empty_queue_commands(state: RunnerView, message: RunnerMessage)
    requires
        state.wf(),
        state.len() == 0,
    ensures
        state.apply(message).state.wf(),
        state.apply(message).state.queue == state.queue,
        state.apply(message).state.state == PlaybackState::Stopped,
        match message {
            RunnerMessage::SetVolume(volume) => state.apply(message) == (Outcome {
                state: RunnerView { volume, ..state },
                actions: seq![PlayerAction::SetVolume(volume)],
            }),
            _ => state.apply(message) == state.unchanged(),
        },
{
}

/// While no track was started, no command asks the player to seek.
pub proof fn lemma_stopped_never_seeks(state: RunnerView, message: RunnerMessage)
    requires
        state.wf(),
        state.state == PlaybackState::Stopped,
    ensures
        forall|k: int|
            0 <= k < state.apply(message).actions.len() ==> !(#[trigger] state.apply(
                message,
            ).actions[k] is SeekTo),
{
}

/// "Previous" at a position above the threshold restarts the current track:
/// the player is asked to seek to its start and nothing else changes. At or
/// below the threshold the position in the queue moves to the previous
/// index. While no track was started there is none to restart, and above
/// the threshold nothing happens.
pub proof fn lemma_play_previous(state: RunnerView)
    requires
        state.wf(),
    ensures
        state.time.position > RESTART_THRESHOLD && state.state != PlaybackState::Stopped
            ==> state.apply(RunnerMessage::PlayPrevious) == (Outcome {
            state,
            actions: seq![PlayerAction::SeekTo { seconds: 0, millis: 0 }],
        }),
        state.time.position > RESTART_THRESHOLD && state.state == PlaybackState::Stopped
            ==> state.apply(RunnerMessage::PlayPrevious) == state.unchanged(),
        state.time.position <= RESTART_THRESHOLD ==> state.apply(
            RunnerMessage::PlayPrevious,
        ).state.queue.current == previous_index(state.queue.current, state.len()),
{
}

/// The playback queue, the playback state and the last known time.
#[derive(Debug)]
pub struct Runner {
    path: String,
    queue: PlaybackQueue,
    state: PlaybackState,
    volume: u32,
    current_time: TrackTime,
}

impl View for Runner {
    type V = RunnerView;

    closed spec fn view(&self) -> RunnerView {
        RunnerView {
            path: self.path@,
            queue: self.queue@,
            state: self.state,
            volume: self.volume,
            time: self.current_time,
        }
    }
}

/// What the runner shows of itself to whoever polls it.
#[derive(Debug, PartialEq, Eq)]
pub struct RunnerStatus {
    /// The index of the current track; zero while nothing was started.
    pub index: usize,
    /// The number of queued tracks.
    pub len: usize,
    /// Whether a track is playing and not paused.
    pub playback: bool,
    pub time: TrackTime,
    /// The volume, in thousandths of full volume.
    pub volume: u32,
    /// The clock label of the position.
    pub position: String,
}

/// Computes the position that `seek` asks for.
pub fn resolve_seek(position: u64, seek: Seek) -> (target: u64)
    ensures
        target == seek_target(position, seek),
{
    match seek {
        Seek::Absolute(to) => to,
        Seek::Relative(by) => {
            if by >= 0 {
                let forward = by as u64;
                if position > u64::MAX - forward {
                    u64::MAX
                } else {
                    position + forward
                }
            } else {
                let backward = (-(by + 1)) as u64 + 1;
                if backward > position {
                    0
                } else {
                    position - backward
                }
            }
        },
    }
}

/// Builds the request that moves playback to `target` milliseconds.
pub fn seek_to(target: u64) -> (action: PlayerAction)
    ensures
        action == seek_action(target),
{
    PlayerAction::SeekTo { seconds: target / 1000, millis: (target % 1000) as u32 }
}

impl Runner {
    /// A runner with an empty queue, stopped, at full volume, for the
    /// library directory `path`.
    pub fn new(path: String) -> (runner: Runner)
        ensures
            runner@.path == path@,
            runner@.queue.tracks.len() == 0,
            runner@.queue.current.is_none(),
            runner@.state == PlaybackState::Stopped,
            runner@.volume == FULL_VOLUME,
            runner@.time == (TrackTime { position: 0, length: 0 }),
            runner@.wf(),
    {
        Runner {
            path,
            queue: PlaybackQueue::new(),
            state: PlaybackState::Stopped,
            volume: FULL_VOLUME,
            current_time: TrackTime::new(),
        }
    }

    /// Starts the follower of the current track, after `before`.
    fn start_next(&mut self, before: Vec<PlayerAction>) -> (actions: Vec<PlayerAction>)
        requires
            old(self)@.wf(),
        ensures
            final(self)@.wf(),
            match next_index(old(self)@.queue.current, old(self)@.len()) {
                Some(next) => {
                    &&& final(self)@ == old(self)@.started(next, Seq::empty()).state
                    &&& actions@ == before@.push(PlayerAction::PlayIndex(next))
                },
                None => final(self)@ == old(self)@ && actions@ == before@,
            },
    {
        let mut actions = before;
        match self.queue.advance() {
            Some(next) => {
                self.state = PlaybackState::Playing;
                actions.push(PlayerAction::PlayIndex(next));
            },
            None => {},
        }
        actions
    }

    /// Applies one command and returns the requests for the player.
    pub fn parse_command(&mut self, message: RunnerMessage) -> (actions: Vec<PlayerAction>)
        requires
            old(self)@.wf(),
        ensures
            final(self)@ == old(self)@.apply(message).state,
            actions@ == old(self)@.apply(message).actions,
            final(self)@.wf(),
    {
        let mut actions: Vec<PlayerAction> = Vec::new();
        match message {
            RunnerMessage::PlayNext => {
                if !self.queue.is_empty() {
                    actions.push(PlayerAction::EndCurrent);
                    actions = self.start_next(actions);
                }
            },
            RunnerMessage::PlayPrevious => {
                if self.current_time.position > RESTART_THRESHOLD {
                    match self.state {
                        PlaybackState::Stopped => {},
                        _ => {
                            actions.push(seek_to(0));
                        },
                    }
                } else {
                    match self.queue.retreat() {
                        Some(previous) => {
                            self.state = PlaybackState::Playing;
                            actions.push(PlayerAction::EndCurrent);
                            actions.push(PlayerAction::PlayIndex(previous));
                        },
                        None => {},
                    }
                }
            },
            RunnerMessage::TogglePause => {
                match self.state {
                    PlaybackState::Playing => {
                        self.state = PlaybackState::Paused;
                        actions.push(PlayerAction::Pause);
                    },
                    PlaybackState::Paused => {
                        self.state = PlaybackState::Playing;
                        actions.push(PlayerAction::Unpause);
                    },
                    PlaybackState::Stopped => {
                        actions = self.start_next(actions);
                    },
                }
            },
            RunnerMessage::Pause => {
                match self.state {
                    PlaybackState::Stopped => {},
                    _ => {
                        self.state = PlaybackState::Paused;
                        actions.push(PlayerAction::Pause);
                    },
                }
            },
            RunnerMessage::Play => {
                match self.state {
                    PlaybackState::Stopped => {
                        actions = self.start_next(actions);
                    },
                    _ => {
                        self.state = PlaybackState::Playing;
                        actions.push(PlayerAction::Unpause);
                    },
                }
            },
            RunnerMessage::SetVolume(volume) => {
                self.volume = volume;
                actions.push(PlayerAction::SetVolume(volume));
            },
            RunnerMessage::PlayTrack(index) => {
                if self.queue.select(index) {
                    self.state = PlaybackState::Playing;
                    actions.push(PlayerAction::EndCurrent);
                    actions.push(PlayerAction::PlayIndex(index));
                }
            },
            RunnerMessage::Seek(seek) => {
                match self.state {
                    PlaybackState::Stopped => {},
                    _ => {
                        actions.push(seek_to(resolve_seek(self.current_time.position, seek)));
                    },
                }
            },
        }
        assert(actions@ =~= old(self)@.apply(message).actions);
        actions
    }

    /// Applies the pending commands in the order in which they arrived and
    /// returns the requests for the player, in order.
    pub fn update(&mut self, messages: &Vec<RunnerMessage>) -> (actions: Vec<PlayerAction>)
        requires
            old(self)@.wf(),
        ensures
            final(self)@ == old(self)@.apply_all(messages@).state,
            actions@ == old(self)@.apply_all(messages@).actions,
            final(self)@.wf(),
    {
        let mut actions: Vec<PlayerAction> = Vec::new();
        let mut done: usize = 0;
        assert(messages@.take(0) =~= Seq::empty());
        while done < messages.len()
            invariant
                done <= messages.len(),
                self@.wf(),
                self@ == old(self)@.apply_all(messages@.take(done as int)).state,
                actions@ == old(self)@.apply_all(messages@.take(done as int)).actions,
            decreases messages.len() - done,
        {
            let mut step = self.parse_command(messages[done]);
            actions.append(&mut step);
            proof {
                let upto = messages@.take(done + 1);
                assert(upto.drop_last() =~= messages@.take(done as int));
                assert(upto.last() == messages@[done as int]);
            }
            done += 1;
        }
        assert(messages@.take(done as int) =~= messages@);
        actions
    }

    /// Takes in what the player reports after the commands were carried out:
    /// its time, if it has one, and whether the track has ended. Returns the
    /// requests for the player.
    pub fn refresh(
        &mut self,
        time: Option<TrackTime>,
        ended: bool,
    ) -> (actions: Vec<PlayerAction>)
        requires
            old(self)@.wf(),
        ensures
            final(self)@ == old(self)@.refresh(time, ended).state,
            actions@ == old(self)@.refresh(time, ended).actions,
            final(self)@.wf(),
    {
        match time {
            Some(t) => {
                self.current_time = t;
            },
            None => {},
        }
        let mut actions: Vec<PlayerAction> = Vec::new();
        if ended {
            actions = self.start_next(actions);
        }
        assert(actions@ =~= old(self)@.refresh(time, ended).actions);
        actions
    }

    /// Takes the snapshot that is shown of the runner.
    pub fn status(&self) -> (status: RunnerStatus)
        ensures
            status.index == match self@.queue.current {
                Some(i) => i,
                None => 0,
            },
            status.len == self@.len(),
            status.playback == (self@.state == PlaybackState::Playing),
            status.time == self@.time,
            status.volume == self@.volume,
            status.position@ == clock_text(self@.time.position),
    {
        RunnerStatus {
            index: match self.queue.index() {
                Some(i) => i,
                None => 0,
            },
            len: self.queue.len(),
            playback: self.playback(),
            time: self.current_time,
            volume: self.volume,
            position: self.current_time.format_pos(),
        }
    }

    /// Whether a track is playing and not paused.
    pub fn playback(&self) -> (playing: bool)
        ensures
            playing == (self@.state == PlaybackState::Playing),
    {
        match self.state {
            PlaybackState::Playing => true,
            _ => false,
        }
    }

    /// The volume, in thousandths of full volume.
    pub fn volume(&self) -> (volume: u32)
        ensures
            volume == self@.volume,
    {
        self.volume
    }

    /// The time last reported by the player.
    pub fn time(&self) -> (time: TrackTime)
        ensures
            time == self@.time,
    {
        self.current_time
    }

    /// The directory that the queue was loaded from.
    pub fn path(&self) -> (path: String)
        ensures
            path@ == self@.path,
    {
        self.path.clone()
    }

    /// The paths of the queued tracks, in playing order.
    pub fn queue(&self) -> (paths: Vec<String>)
        ensures
            paths.deep_view() == self@.queue.tracks,
    {
        self.queue.queue()
    }

    /// The index of the current track; none while nothing was started.
    pub fn index(&self) -> (index: Option<usize>)
        ensures
            index == self@.queue.current,
    {
        self.queue.index()
    }

    /// The number of queued tracks.
    pub fn len(&self) -> (len: usize)
        ensures
            len == self@.len(),
    {
        self.queue.len()
    }

    /// Whether no track is queued.
    pub fn is_empty(&self) -> (empty: bool)
        ensures
            empty == (self@.len() == 0),
    {
        self.queue.is_empty()
    }

    /// The path of the track at `index`, if there is one.
    pub fn get_path_for_file(&self, index: usize) -> (path: Option<String>)
        ensures
            match path {
                Some(p) => index < self@.len() && p@ == self@.queue.tracks[index as int],
                None => index >= self@.len(),
            },
    {
        self.queue.get_path_for_file(index)
    }

    /// The path of the current track, or of the first one while nothing was
    /// started. None where the queue is empty.
    pub fn current_track(&self) -> (path: Option<String>)
        requires
            self@.wf(),
        ensures
            match path {
                Some(p) => self@.len() > 0 && p@ == self@.queue.tracks[match self@.queue.current {
                    Some(i) => i as int,
                    None => 0,
                }],
                None => self@.len() == 0,
            },
    {
        let index: usize = match self.queue.index() {
            Some(i) => i,
            None => 0,
        };
        self.queue.get_path_for_file(index)
    }

    /// Stops playback and empties the queue for a new library directory.
    /// Returns the requests for the player.
    pub fn clear(&mut self) -> (actions: Vec<PlayerAction>)
        ensures
            final(self)@ == (RunnerView {
                queue: QueueView { tracks: Seq::empty(), current: None },
                state: PlaybackState::Stopped,
                time: TrackTime { position: 0, length: 0 },
                ..old(self)@
            }),
            actions@ == seq![PlayerAction::EndCurrent],
            final(self)@.wf(),
    {
        self.queue.clear();
        self.state = PlaybackState::Stopped;
        self.current_time = TrackTime::new();
        let mut actions: Vec<PlayerAction> = Vec::new();
        actions.push(PlayerAction::EndCurrent);
        assert(self@.queue.tracks =~= Seq::empty());
        actions
    }

    /// Names the directory that the queue is loaded from.
    pub fn set_path(&mut self, path: String)
        ensures
            final(self)@ == (RunnerView { path: path@, ..old(self)@ }),
    {
        self.path = path;
    }

    /// Appends `paths` to the queue, in their order.
    pub fn add_all(&mut self, paths: Vec<String>)
        requires
            old(self)@.wf(),
        ensures
            final(self)@ == (RunnerView {
                queue: QueueView {
                    tracks: old(self)@.queue.tracks + paths.deep_view(),
                    ..old(self)@.queue
                },
                ..old(self)@
            }),
            final(self)@.wf(),
    {
        self.queue.add_all(paths);
    }

    /// Puts the queued tracks into a random order. The same paths are queued
    /// afterwards, each as often as before; nothing else changes.
    pub fn shuffle(&mut self)
        requires
            old(self)@.wf(),
        ensures
            final(self)@.queue.tracks.to_multiset() == old(self)@.queue.tracks.to_multiset(),
            final(self)@.queue.tracks.len() == old(self)@.queue.tracks.len(),
            final(self)@ == (RunnerView {
                queue: QueueView { tracks: final(self)@.queue.tracks, ..old(self)@.queue },
                ..old(self)@
            }),
            final(self)@.wf(),
    {
        self.queue.shuffle();
    }
}

} // verus!
