use n_player::queue::PlaybackQueue;
use n_player::runner::{
    resolve_seek, seek_to, PlaybackState, PlayerAction, Runner, RunnerMessage, Seek, FULL_VOLUME,
    RESTART_THRESHOLD,
};
use n_player::time::TrackTime;

fn paths(names: &[&str]) -> Vec<String> {
    names.iter().map(|n| n.to_string()).collect()
}

fn runner_with(names: &[&str]) -> Runner {
    let mut runner = Runner::new("/music".to_string());
    runner.add_all(paths(names));
    runner
}

fn at(position: u64) -> Option<TrackTime> {
    Some(TrackTime { position, length: 200_000 })
}

#[test]
fn new_runner_is_stopped_and_empty() {
    let runner = Runner::new("/music".to_string());
    assert!(runner.is_empty());
    assert_eq!(runner.len(), 0);
    assert_eq!(runner.index(), None);
    assert!(!runner.playback());
    assert_eq!(runner.volume(), FULL_VOLUME);
    assert_eq!(runner.time(), TrackTime { position: 0, length: 0 });
    assert_eq!(runner.path(), "/music");
    assert_eq!(runner.current_track(), None);
    assert_eq!(runner.get_path_for_file(0), None);
}

#[test]
fn empty_queue_ignores_track_commands() {
    let commands = [
        RunnerMessage::PlayNext,
        RunnerMessage::PlayPrevious,
        RunnerMessage::TogglePause,
        RunnerMessage::Pause,
        RunnerMessage::Play,
        RunnerMessage::PlayTrack(0),
        RunnerMessage::PlayTrack(7),
    ];
    for command in commands {
        let mut runner = Runner::new(String::new());
        let actions = runner.parse_command(command);
        assert_eq!(actions, vec![], "{:?}", command);
        assert_eq!(runner.index(), None);
        assert!(runner.is_empty());
        assert!(!runner.playback());
    }
}

#[test]
fn empty_queue_still_takes_volume_and_seek() {
    let mut runner = Runner::new(String::new());
    assert_eq!(
        runner.parse_command(RunnerMessage::SetVolume(250)),
        vec![PlayerAction::SetVolume(250)]
    );
    assert_eq!(runner.volume(), 250);
    assert_eq!(runner.parse_command(RunnerMessage::Seek(Seek::Absolute(1500))), vec![]);
    assert_eq!(runner.parse_command(RunnerMessage::Seek(Seek::Relative(-7))), vec![]);
    assert_eq!(runner.index(), None);
    assert!(!runner.playback());
}

#[test]
fn stopped_runner_asks_for_no_seek() {
    let mut runner = runner_with(&["a", "b"]);
    runner.refresh(at(9_000), false);
    assert_eq!(runner.parse_command(RunnerMessage::Seek(Seek::Absolute(1500))), vec![]);
    assert_eq!(runner.parse_command(RunnerMessage::PlayPrevious), vec![]);
    assert_eq!(runner.index(), None);
    assert!(!runner.playback());
    let mut empty = Runner::new(String::new());
    empty.refresh(at(9_000), false);
    assert_eq!(empty.parse_command(RunnerMessage::PlayPrevious), vec![]);
    assert_eq!(empty.index(), None);
}

#[test]
fn paused_runner_still_seeks() {
    let mut runner = runner_with(&["a", "b"]);
    runner.parse_command(RunnerMessage::PlayTrack(1));
    runner.parse_command(RunnerMessage::Pause);
    runner.refresh(at(9_000), false);
    assert_eq!(
        runner.parse_command(RunnerMessage::Seek(Seek::Absolute(1500))),
        vec![PlayerAction::SeekTo { seconds: 1, millis: 500 }]
    );
    assert_eq!(
        runner.parse_command(RunnerMessage::PlayPrevious),
        vec![PlayerAction::SeekTo { seconds: 0, millis: 0 }]
    );
    assert_eq!(runner.index(), Some(1));
}

#[test]
fn play_next_starts_at_the_first_track_and_wraps() {
    let mut runner = runner_with(&["a", "b", "c"]);
    assert_eq!(
        runner.parse_command(RunnerMessage::PlayNext),
        vec![PlayerAction::EndCurrent, PlayerAction::PlayIndex(0)]
    );
    assert_eq!(runner.index(), Some(0));
    assert!(runner.playback());
    runner.parse_command(RunnerMessage::PlayNext);
    assert_eq!(runner.index(), Some(1));
    runner.parse_command(RunnerMessage::PlayNext);
    assert_eq!(runner.index(), Some(2));
    assert_eq!(
        runner.parse_command(RunnerMessage::PlayNext),
        vec![PlayerAction::EndCurrent, PlayerAction::PlayIndex(0)]
    );
    assert_eq!(runner.index(), Some(0));
}

#[test]
fn play_previous_above_three_seconds_restarts_the_track() {
    let mut runner = runner_with(&["a", "b", "c"]);
    runner.parse_command(RunnerMessage::PlayTrack(1));
    runner.refresh(at(3001), false);
    assert_eq!(
        runner.parse_command(RunnerMessage::PlayPrevious),
        vec![PlayerAction::SeekTo { seconds: 0, millis: 0 }]
    );
    assert_eq!(runner.index(), Some(1));
    assert!(runner.playback());
}

#[test]
fn play_previous_at_three_seconds_moves_back() {
    let mut runner = runner_with(&["a", "b", "c"]);
    runner.parse_command(RunnerMessage::PlayTrack(1));
    runner.refresh(at(RESTART_THRESHOLD), false);
    assert_eq!(
        runner.parse_command(RunnerMessage::PlayPrevious),
        vec![PlayerAction::EndCurrent, PlayerAction::PlayIndex(0)]
    );
    assert_eq!(runner.index(), Some(0));
}

#[test]
fn play_previous_wraps_to_the_last_track() {
    let mut runner = runner_with(&["a", "b", "c"]);
    runner.parse_command(RunnerMessage::PlayTrack(0));
    assert_eq!(
        runner.parse_command(RunnerMessage::PlayPrevious),
        vec![PlayerAction::EndCurrent, PlayerAction::PlayIndex(2)]
    );
    assert_eq!(runner.index(), Some(2));
}

#[test]
fn play_previous_before_anything_played_goes_to_the_last_track() {
    let mut runner = runner_with(&["a", "b", "c"]);
    runner.parse_command(RunnerMessage::PlayPrevious);
    assert_eq!(runner.index(), Some(2));
    assert!(runner.playback());
}

#[test]
fn toggle_pause_inverts_and_starts_when_stopped() {
    let mut runner = runner_with(&["a", "b"]);
    assert_eq!(
        runner.parse_command(RunnerMessage::TogglePause),
        vec![PlayerAction::PlayIndex(0)]
    );
    assert!(runner.playback());
    assert_eq!(runner.parse_command(RunnerMessage::TogglePause), vec![PlayerAction::Pause]);
    assert!(!runner.playback());
    assert_eq!(runner.index(), Some(0));
    assert_eq!(runner.parse_command(RunnerMessage::TogglePause), vec![PlayerAction::Unpause]);
    assert!(runner.playback());
}

#[test]
fn pause_and_play_set_the_state() {
    let mut runner = runner_with(&["a", "b"]);
    assert_eq!(runner.parse_command(RunnerMessage::Pause), vec![]);
    assert_eq!(runner.parse_command(RunnerMessage::Play), vec![PlayerAction::PlayIndex(0)]);
    assert_eq!(runner.parse_command(RunnerMessage::Pause), vec![PlayerAction::Pause]);
    assert!(!runner.playback());
    assert_eq!(runner.parse_command(RunnerMessage::Pause), vec![PlayerAction::Pause]);
    assert_eq!(runner.parse_command(RunnerMessage::Play), vec![PlayerAction::Unpause]);
    assert!(runner.playback());
    assert_eq!(runner.index(), Some(0));
}

#[test]
fn play_track_jumps_and_rejects_indices_out_of_range() {
    let mut runner = runner_with(&["a", "b", "c"]);
    assert_eq!(
        runner.parse_command(RunnerMessage::PlayTrack(2)),
        vec![PlayerAction::EndCurrent, PlayerAction::PlayIndex(2)]
    );
    assert_eq!(runner.index(), Some(2));
    assert_eq!(runner.parse_command(RunnerMessage::PlayTrack(3)), vec![]);
    assert_eq!(runner.index(), Some(2));
    assert!(runner.playback());
}

#[test]
fn seek_splits_seconds_and_thousandths() {
    assert_eq!(seek_to(0), PlayerAction::SeekTo { seconds: 0, millis: 0 });
    assert_eq!(seek_to(93_250), PlayerAction::SeekTo { seconds: 93, millis: 250 });
    assert_eq!(seek_to(999), PlayerAction::SeekTo { seconds: 0, millis: 999 });
    assert_eq!(
        seek_to(u64::MAX),
        PlayerAction::SeekTo { seconds: 18_446_744_073_709_551, millis: 615 }
    );
}

#[test]
fn relative_seek_adds_to_the_position_and_stays_in_range() {
    assert_eq!(resolve_seek(10_000, Seek::Absolute(42)), 42);
    assert_eq!(resolve_seek(10_000, Seek::Relative(5_000)), 15_000);
    assert_eq!(resolve_seek(10_000, Seek::Relative(-4_000)), 6_000);
    assert_eq!(resolve_seek(10_000, Seek::Relative(-10_000)), 0);
    assert_eq!(resolve_seek(10_000, Seek::Relative(-10_001)), 0);
    assert_eq!(resolve_seek(10_000, Seek::Relative(i64::MIN)), 0);
    assert_eq!(resolve_seek(u64::MAX - 1, Seek::Relative(1)), u64::MAX);
    assert_eq!(resolve_seek(u64::MAX - 1, Seek::Relative(2)), u64::MAX);
    assert_eq!(resolve_seek(u64::MAX, Seek::Relative(i64::MAX)), u64::MAX);
}

#[test]
fn relative_seek_command_uses_the_last_reported_time() {
    let mut runner = runner_with(&["a"]);
    runner.parse_command(RunnerMessage::PlayNext);
    runner.refresh(at(61_500), false);
    assert_eq!(
        runner.parse_command(RunnerMessage::Seek(Seek::Relative(-1_250))),
        vec![PlayerAction::SeekTo { seconds: 60, millis: 250 }]
    );
    assert_eq!(runner.time().position, 61_500);
}

#[test]
fn update_applies_commands_in_arrival_order() {
    let mut runner = runner_with(&["a", "b", "c"]);
    let actions = runner.update(&vec![
        RunnerMessage::PlayTrack(1),
        RunnerMessage::SetVolume(500),
        RunnerMessage::PlayNext,
        RunnerMessage::Pause,
    ]);
    assert_eq!(
        actions,
        vec![
            PlayerAction::EndCurrent,
            PlayerAction::PlayIndex(1),
            PlayerAction::SetVolume(500),
            PlayerAction::EndCurrent,
            PlayerAction::PlayIndex(2),
            PlayerAction::Pause,
        ]
    );
    assert_eq!(runner.index(), Some(2));
    assert_eq!(runner.volume(), 500);
    assert!(!runner.playback());
}

#[test]
fn update_in_two_parts_equals_update_at_once() {
    let commands = vec![
        RunnerMessage::Play,
        RunnerMessage::PlayNext,
        RunnerMessage::TogglePause,
        RunnerMessage::PlayPrevious,
        RunnerMessage::Seek(Seek::Absolute(2_000)),
    ];
    let mut whole = runner_with(&["a", "b", "c"]);
    let all = whole.update(&commands);
    let mut split = runner_with(&["a", "b", "c"]);
    let mut parts = split.update(&commands[..2].to_vec());
    parts.extend(split.update(&commands[2..].to_vec()));
    assert_eq!(all, parts);
    assert_eq!(whole.status(), split.status());
}

#[test]
fn update_without_commands_changes_nothing() {
    let mut runner = runner_with(&["a"]);
    assert_eq!(runner.update(&vec![]), vec![]);
    assert_eq!(runner.index(), None);
}

#[test]
fn refresh_stores_the_time_and_advances_at_the_end() {
    let mut runner = runner_with(&["a", "b"]);
    runner.parse_command(RunnerMessage::PlayTrack(1));
    assert_eq!(runner.refresh(at(1_000), false), vec![]);
    assert_eq!(runner.time(), TrackTime { position: 1_000, length: 200_000 });
    assert_eq!(runner.refresh(None, false), vec![]);
    assert_eq!(runner.time().position, 1_000);
    assert_eq!(runner.refresh(at(200_000), true), vec![PlayerAction::PlayIndex(0)]);
    assert_eq!(runner.index(), Some(0));
    assert!(runner.playback());
}

#[test]
fn refresh_on_an_empty_queue_stays_stopped() {
    let mut runner = Runner::new(String::new());
    assert_eq!(runner.refresh(None, true), vec![]);
    assert_eq!(runner.index(), None);
    assert!(!runner.playback());
}

#[test]
fn clear_stops_and_empties() {
    let mut runner = runner_with(&["a", "b"]);
    runner.parse_command(RunnerMessage::PlayNext);
    runner.refresh(at(5_000), false);
    assert_eq!(runner.clear(), vec![PlayerAction::EndCurrent]);
    assert!(runner.is_empty());
    assert_eq!(runner.index(), None);
    assert!(!runner.playback());
    assert_eq!(runner.time(), TrackTime { position: 0, length: 0 });
    assert_eq!(runner.path(), "/music");
    runner.set_path("/other".to_string());
    assert_eq!(runner.path(), "/other");
}

#[test]
fn accessors_read_the_queue() {
    let mut runner = runner_with(&["a", "b", "c"]);
    assert_eq!(runner.len(), 3);
    assert!(!runner.is_empty());
    assert_eq!(runner.queue(), paths(&["a", "b", "c"]));
    assert_eq!(runner.get_path_for_file(1), Some("b".to_string()));
    assert_eq!(runner.get_path_for_file(3), None);
    assert_eq!(runner.current_track(), Some("a".to_string()));
    runner.parse_command(RunnerMessage::PlayTrack(2));
    assert_eq!(runner.current_track(), Some("c".to_string()));
}

#[test]
fn status_shows_index_zero_before_anything_played() {
    let mut runner = runner_with(&["a", "b"]);
    let status = runner.status();
    assert_eq!(status.index, 0);
    assert_eq!(status.len, 2);
    assert!(!status.playback);
    assert_eq!(status.position, "00:00");
    runner.parse_command(RunnerMessage::PlayTrack(1));
    runner.refresh(at(75_900), false);
    let status = runner.status();
    assert_eq!(status.index, 1);
    assert!(status.playback);
    assert_eq!(status.position, "01:15");
    assert_eq!(status.volume, FULL_VOLUME);
    assert_eq!(status.time, TrackTime { position: 75_900, length: 200_000 });
}

#[test]
fn shuffle_keeps_the_tracks() {
    let names = ["a", "b", "c", "d", "e", "f", "g", "h"];
    let mut runner = runner_with(&names);
    runner.parse_command(RunnerMessage::PlayTrack(3));
    runner.shuffle();
    assert_eq!(runner.len(), names.len());
    assert_eq!(runner.index(), Some(3));
    let mut queued = runner.queue();
    queued.sort();
    assert_eq!(queued, paths(&names));
}

#[test]
fn queue_moves_through_its_tracks() {
    let mut queue = PlaybackQueue::new();
    assert_eq!(queue.advance(), None);
    assert_eq!(queue.retreat(), None);
    assert!(!queue.select(0));
    queue.add_all(paths(&["a", "b"]));
    assert_eq!(queue.len(), 2);
    assert_eq!(queue.advance(), Some(0));
    assert_eq!(queue.advance(), Some(1));
    assert_eq!(queue.advance(), Some(0));
    assert_eq!(queue.retreat(), Some(1));
    assert_eq!(queue.retreat(), Some(0));
    assert!(queue.select(1));
    assert!(!queue.select(2));
    assert_eq!(queue.index(), Some(1));
    queue.add_all(paths(&["c"]));
    assert_eq!(queue.queue(), paths(&["a", "b", "c"]));
    assert_eq!(queue.index(), Some(1));
    queue.clear();
    assert!(queue.is_empty());
    assert_eq!(queue.index(), None);
}

#[test]
fn playback_state_is_comparable() {
    assert_ne!(PlaybackState::Playing, PlaybackState::Paused);
    assert_eq!(PlaybackState::Stopped, PlaybackState::Stopped);
}

#[test]
fn shuffle_changes_the_order_of_a_long_queue() {
    let names: Vec<String> = (0..60).map(|i| format!("{:02}", i)).collect();
    let mut runner = Runner::new(String::new());
    runner.add_all(names.clone());
    runner.shuffle();
    assert_ne!(runner.queue(), names);
    let mut queued = runner.queue();
    queued.sort();
    assert_eq!(queued, names);
}
