use dmm::controller::{
    pause_command, play_command, set_track_commands, stop_command, Command, Effect, Event, Stage,
    Task, Worker,
};
use dmm::decoder::SelectedTrack;
use dmm::state::State;
use dmm::timing::TimeBase;

fn track() -> SelectedTrack {
    SelectedTrack { id: 0, time_base: TimeBase { numer: 1, denom: 8000 }, n_frames: 40000 }
}

fn quiet() -> Effect {
    Effect::none()
}

/// A worker with a probed source, started and polling.
fn playing_worker() -> Worker {
    let mut w = Worker::new();
    assert_eq!(w.step(Event::Command(Command::SetSource)), quiet());
    assert_eq!(w.task(), Task::Probe);
    assert_eq!(w.step(Event::Probed(track())), quiet());
    assert_eq!(w.step(Event::Command(Command::Start)), quiet());
    assert_eq!(w.published_state(), State::Playing);
    w
}

#[test]
fn new_worker_is_stopped_and_waits() {
    let w = Worker::new();
    assert_eq!(w.published_state(), State::Stopped);
    assert_eq!(w.task(), Task::Receive);
    assert_eq!(w.duration, 0);
    assert_eq!(w.timestamp, 0);
}

#[test]
fn state_codes_round_trip() {
    for s in [State::Playing, State::Paused, State::Stopped] {
        assert_eq!(State::from_u8(s.to_u8()), Some(s));
    }
    assert_eq!(State::Playing.to_u8(), 0);
    assert_eq!(State::Paused.to_u8(), 1);
    assert_eq!(State::Stopped.to_u8(), 2);
    assert_eq!(State::from_u8(3), None);
}

#[test]
fn play_while_playing_changes_nothing() {
    let mut w = playing_worker();
    let before = w;
    let e = w.step(Event::Command(Command::Play));
    assert!(e.ignored);
    assert!(!e.notify && !e.pause_output && !e.release_output);
    assert_eq!(w.published_state(), State::Playing);
    assert_eq!(w.session, before.session);
    assert_eq!(play_command(State::Playing), None);
}

#[test]
fn pause_while_paused_changes_nothing() {
    let mut w = playing_worker();
    w.step(Event::Command(Command::Pause));
    assert_eq!(w.published_state(), State::Paused);
    let before = w;
    let e = w.step(Event::Command(Command::Pause));
    assert!(e.ignored);
    assert_eq!(w, before);
    assert_eq!(pause_command(State::Paused), None);
}

#[test]
fn stop_from_playing_and_paused_releases_output() {
    let mut w = playing_worker();
    w.step(Event::Empty);
    w.step(Event::Packet(0));
    w.step(Event::Written);
    assert!(w.output_open);
    let e = w.step(Event::Command(Command::Stop));
    assert!(e.release_output);
    assert!(!e.notify);
    assert_eq!(w.published_state(), State::Stopped);
    assert!(!w.output_open);

    let mut w = playing_worker();
    w.step(Event::Empty);
    w.step(Event::Packet(0));
    w.step(Event::Written);
    w.step(Event::Command(Command::Pause));
    let e = w.step(Event::Command(Command::Stop));
    assert!(e.release_output && !e.notify);
    assert_eq!(w.published_state(), State::Stopped);
    assert_eq!(stop_command(State::Paused), Some(Command::Stop));
    assert_eq!(stop_command(State::Playing), Some(Command::Stop));
    assert_eq!(stop_command(State::Stopped), None);
}

#[test]
fn timestamp_rises_while_playing_and_holds_while_paused() {
    let mut w = playing_worker();
    let mut last = 0;
    for ts in [0u64, 8000, 16000, 16500, 24000] {
        w.step(Event::Empty);
        w.step(Event::Packet(ts));
        assert!(w.timestamp >= last);
        last = w.timestamp;
        w.step(Event::Written);
    }
    assert_eq!(w.timestamp, 3);
    w.step(Event::Command(Command::Pause));
    w.step(Event::Command(Command::SetOnComplete));
    w.step(Event::Command(Command::Pause));
    assert_eq!(w.timestamp, 3);
}

#[test]
fn duration_is_stable_after_first_packet() {
    let mut w = playing_worker();
    w.step(Event::Empty);
    w.step(Event::Packet(0));
    assert_eq!(w.duration, 5);
    w.step(Event::Written);
    for ts in [100u64, 4000, 39999] {
        w.step(Event::Empty);
        w.step(Event::Retry);
        w.step(Event::Empty);
        w.step(Event::Packet(ts));
        assert_eq!(w.duration, 5);
        w.step(Event::Written);
    }
    w.step(Event::Empty);
    w.step(Event::StreamEnd);
    assert_eq!(w.duration, 5);
}

#[test]
fn completion_fires_once_at_stream_end() {
    let mut w = Worker::new();
    let e = w.step(Event::Command(Command::SetOnComplete));
    assert!(e.install_callback);
    w.step(Event::Command(Command::SetSource));
    w.step(Event::Probed(track()));
    w.step(Event::Command(Command::Start));
    w.step(Event::Empty);
    w.step(Event::Packet(0));
    w.step(Event::Written);
    w.step(Event::Empty);
    let e = w.step(Event::StreamEnd);
    assert!(e.notify);
    assert!(e.release_output);
    assert_eq!(w.published_state(), State::Stopped);
    assert_eq!(w.stage, Stage::Idle);
    let mut notified = 0;
    for ev in [Event::Command(Command::Stop), Event::Command(Command::Play), Event::Command(Command::Pause)] {
        if w.step(ev).notify {
            notified += 1;
        }
    }
    assert_eq!(notified, 0);
}

#[test]
fn completion_fires_on_fatal_decode_error() {
    let mut w = Worker::new();
    w.step(Event::Command(Command::SetOnComplete));
    w.step(Event::Command(Command::SetSource));
    w.step(Event::Probed(track()));
    w.step(Event::Command(Command::Start));
    w.step(Event::Empty);
    let e = w.step(Event::DecodeFailed);
    assert!(e.notify);
    assert!(w.failed);
    assert_eq!(w.task(), Task::Exit);
    assert_eq!(w.published_state(), State::Stopped);
}

#[test]
fn output_failure_ends_the_track() {
    let mut w = Worker::new();
    w.step(Event::Command(Command::SetOnComplete));
    w.step(Event::Command(Command::SetSource));
    w.step(Event::Probed(track()));
    w.step(Event::Command(Command::Start));
    w.step(Event::Empty);
    w.step(Event::Packet(0));
    let e = w.step(Event::OutputFailed);
    assert!(e.notify && e.release_output);
    assert!(w.failed);
    assert_eq!(w.published_state(), State::Stopped);
}

#[test]
fn stop_does_not_notify() {
    let mut w = Worker::new();
    w.step(Event::Command(Command::SetOnComplete));
    w.step(Event::Command(Command::SetSource));
    w.step(Event::Probed(track()));
    w.step(Event::Command(Command::Start));
    w.step(Event::Empty);
    w.step(Event::Packet(8000));
    w.step(Event::Written);
    let e = w.step(Event::Command(Command::Stop));
    assert!(!e.notify);
    assert_eq!(w.published_state(), State::Stopped);
}

#[test]
fn play_pause_play_sequence() {
    let mut w = Worker::new();
    w.step(Event::Command(Command::SetOnComplete));
    w.step(Event::Command(Command::SetSource));
    w.step(Event::Probed(track()));
    let mut seen = Vec::new();
    let mut notified = false;
    for c in [play_command(w.published_state()).unwrap()] {
        notified |= w.step(Event::Command(c)).notify;
    }
    seen.push(w.published_state());
    let c = pause_command(w.published_state()).unwrap();
    notified |= w.step(Event::Command(c)).notify;
    seen.push(w.published_state());
    let c = play_command(w.published_state()).unwrap();
    let e = w.step(Event::Command(c));
    notified |= e.notify;
    seen.push(w.published_state());
    assert_eq!(seen, vec![State::Playing, State::Paused, State::Playing]);
    assert!(!notified);
}

#[test]
fn stray_commands_while_stopped_are_ignored() {
    let mut w = Worker::new();
    for c in [Command::Play, Command::Pause, Command::Stop] {
        let e = w.step(Event::Command(c));
        assert!(e.ignored);
        assert_eq!(w.published_state(), State::Stopped);
    }
    let e = w.step(Event::Command(Command::Start));
    assert!(e.defect);
    assert_eq!(w.published_state(), State::Stopped);
}

#[test]
fn disconnected_inbox_ends_the_worker() {
    let mut w = playing_worker();
    w.step(Event::Disconnected);
    assert_eq!(w.task(), Task::Exit);
    assert!(!w.failed);
    assert_eq!(w.published_state(), State::Stopped);
}

#[test]
fn failed_probe_ends_the_worker_with_an_error() {
    let mut w = Worker::new();
    w.step(Event::Command(Command::SetSource));
    w.step(Event::ProbeFailed);
    assert!(w.failed);
    assert_eq!(w.task(), Task::Exit);
}

#[test]
fn set_track_stops_first() {
    assert_eq!(set_track_commands(State::Playing), vec![Command::Stop, Command::SetSource]);
    assert_eq!(set_track_commands(State::Stopped), vec![Command::SetSource]);
    assert_eq!(play_command(State::Stopped), Some(Command::Start));
    assert_eq!(play_command(State::Paused), Some(Command::Play));
    assert_eq!(pause_command(State::Playing), Some(Command::Pause));
}

#[test]
fn start_resets_published_time() {
    let mut w = playing_worker();
    w.step(Event::Empty);
    w.step(Event::Packet(80000));
    w.step(Event::Written);
    assert_eq!(w.timestamp, 10);
    w.step(Event::Command(Command::Stop));
    w.step(Event::Command(Command::SetSource));
    w.step(Event::Probed(track()));
    w.step(Event::Command(Command::Start));
    assert_eq!(w.published_state(), State::Playing);
    assert_eq!(w.timestamp, 0);
    assert_eq!(w.duration, 0);
    w.step(Event::Empty);
    w.step(Event::Packet(0));
    assert_eq!(w.timestamp, 0);
    assert_eq!(w.duration, 5);
}
