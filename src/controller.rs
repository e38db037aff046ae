//! The playback controller's worker, as a state machine. The worker owns the
//! decode session, the command inbox and the published state; whoever runs it
//! performs the task that `task` names, reports what happened as an `Event`,
//! and carries out the `Effect` that `step` returns.

use vstd::prelude::*;
use crate::decoder::SelectedTrack;
use crate::state::State;
use crate::timing::u64_span;

verus! {

/// A command in the worker's inbox. A new source or a new completion
/// callback travels beside its command; the worker's decisions need only
/// which command it is.
#[derive(Debug, Clone, Copy, PartialEq, Eq, Structural)]
pub enum Command {
    Play,
    Pause,
    Stop,
    /// Start playing the pending source (from stopped).
    Start,
    SetSource,
    SetOnComplete,
}

/// Where the worker is in its loop.
#[derive(Debug, Clone, Copy, PartialEq, Eq, Structural)]
pub enum Stage {
    /// Stopped, waiting for a command.
    Idle,
    /// Stopped, opening the source that came with `SetSource`.
    Probing,
    /// Playing, about to take a waiting command if there is one.
    Polling,
    /// Playing, about to read and decode the next packet.
    Decoding,
    /// Playing, about to hand a decoded buffer to the output.
    Writing,
    /// Paused, waiting for a command.
    Paused,
    /// The worker has left its loop.
    Done,
}

/// The work that the worker's stage asks for.
#[derive(Debug, Clone, Copy, PartialEq, Eq, Structural)]
pub enum Task {
    /// Wait for the next command.
    Receive,
    /// Take the next command if one is waiting, without waiting.
    Poll,
    /// Probe the new source and select its track.
    Probe,
    /// Read and decode the next packet.
    Decode,
    /// Write the decoded buffer to the output, opening and starting the
    /// output first if it is not open.
    Output,
    /// Leave the worker loop.
    Exit,
}

/// What came of the worker's last task.
#[derive(Debug, Clone, Copy, PartialEq, Eq, Structural)]
pub enum Event {
    /// A command was received.
    Command(Command),
    /// No command was waiting.
    Empty,
    /// Every sender of the inbox is gone.
    Disconnected,
    /// The source was probed and this track selected.
    Probed(SelectedTrack),
    /// The source could not be probed.
    ProbeFailed,
    /// A packet of the selected track was decoded; its timestamp in ticks.
    Packet(u64),
    /// Nothing to play came of the packet.
    Retry,
    /// The track is complete.
    StreamEnd,
    /// Decoding failed unrecoverably.
    DecodeFailed,
    /// The decoded buffer was written to the output.
    Written,
    /// The output could not be opened or started.
    OutputFailed,
}

/// What the runner of the worker does after a step, besides the next task.
#[derive(Debug, Clone, Copy, PartialEq, Eq, Structural)]
pub struct Effect {
    /// Ask the hardware stream to pause.
    pub pause_output: bool,
    /// Ask the hardware stream to play.
    pub resume_output: bool,
    /// Flush and drop the hardware stream.
    pub release_output: bool,
    /// Invoke the completion callback.
    pub notify: bool,
    /// Keep the callback that came with the command as the completion callback.
    pub install_callback: bool,
    /// The command changes nothing in this state (it is logged).
    pub ignored: bool,
    /// The event is not one that the stage allows; nothing changed.
    pub defect: bool,
}

/// The worker: its stage, its decode session and what it publishes.
#[derive(Debug, Clone, Copy, PartialEq, Eq, Structural)]
pub struct Worker {
    pub stage: Stage,
    /// The pending session while stopped, the current one while playing.
    pub session: Option<SelectedTrack>,
    pub has_callback: bool,
    /// A hardware output stream is open.
    pub output_open: bool,
    /// Published total duration of the track, in seconds.
    pub duration: u64,
    /// Published elapsed time, in seconds.
    pub timestamp: u64,
    /// Timestamp, in ticks, of the session's last decoded packet.
    pub last_ts: u64,
    /// The current session has decoded a packet.
    pub first_packet_seen: bool,
    /// The worker left its loop on an error.
    pub failed: bool,
}

/// An effect that does nothing.
pub open spec fn no_effect() -> Effect {
    Effect {
        pause_output: false,
        resume_output: false,
        release_output: false,
        notify: false,
        install_callback: false,
        ignored: false,
        defect: false,
    }
}

/// A `u64` that wraps `x`.
pub open spec fn wrap(x: int) -> u64 {
    (x % u64_span()) as u64
}

/// The stage is one in which the worker is playing a track.
pub open spec fn is_playing_stage(s: Stage) -> bool {
    s == Stage::Polling || s == Stage::Decoding || s == Stage::Writing
}

/// The stage is one in which a track's session is live (playing or paused).
pub open spec fn in_session(s: Stage) -> bool {
    is_playing_stage(s) || s == Stage::Paused
}

/// The published state of a stage.
pub open spec fn state_of(s: Stage) -> State {
    if is_playing_stage(s) {
        State::Playing
    } else if s == Stage::Paused {
        State::Paused
    } else {
        State::Stopped
    }
}

/// The task that a stage asks for.
pub open spec fn task_of(s: Stage) -> Task {
    match s {
        Stage::Idle => Task::Receive,
        Stage::Probing => Task::Probe,
        Stage::Polling => Task::Poll,
        Stage::Decoding => Task::Decode,
        Stage::Writing => Task::Output,
        Stage::Paused => Task::Receive,
        Stage::Done => Task::Exit,
    }
}

/// The worker leaves the session: the output is released, the session dropped.
pub open spec fn end_session(w: Worker, stage: Stage, failed: bool) -> Worker {
    Worker { stage, session: None, output_open: false, failed, ..w }
}

/// The effect of ending a session: release the output, and notify if asked.
pub open spec fn end_effect(w: Worker, notify: bool) -> Effect {
    Effect { release_output: w.output_open, notify, ..no_effect() }
}

/// A command received while stopped and waiting.
pub open spec fn idle_command(w: Worker, c: Command) -> (Worker, Effect) {
    match c {
        Command::Start => match w.session {
            Some(_) => (
                Worker {
                    stage: Stage::Polling,
                    output_open: false,
                    first_packet_seen: false,
                    duration: 0,
                    timestamp: 0,
                    ..w
                },
                no_effect(),
            ),
            None => (w, Effect { defect: true, ..no_effect() }),
        },
        Command::SetSource => (Worker { stage: Stage::Probing, session: None, ..w }, no_effect()),
        Command::SetOnComplete => (
            Worker { has_callback: true, ..w },
            Effect { install_callback: true, ..no_effect() },
        ),
        _ => (w, Effect { ignored: true, ..no_effect() }),
    }
}

/// A command taken while playing.
pub open spec fn playing_command(w: Worker, c: Command) -> (Worker, Effect) {
    match c {
        Command::Play => (
            Worker { stage: Stage::Decoding, ..w },
            Effect { ignored: true, ..no_effect() },
        ),
        Command::Pause => (
            Worker { stage: Stage::Paused, ..w },
            Effect { pause_output: w.output_open, ..no_effect() },
        ),
        Command::Stop => (end_session(w, Stage::Idle, false), end_effect(w, false)),
        Command::SetOnComplete => (
            Worker { stage: Stage::Decoding, has_callback: true, ..w },
            Effect { install_callback: true, ..no_effect() },
        ),
        _ => (Worker { stage: Stage::Decoding, ..w }, Effect { defect: true, ..no_effect() }),
    }
}

/// A command received while paused.
pub open spec fn paused_command(w: Worker, c: Command) -> (Worker, Effect) {
    match c {
        Command::Play => (
            Worker { stage: Stage::Decoding, ..w },
            Effect { resume_output: w.output_open, ..no_effect() },
        ),
        Command::Pause => (w, Effect { ignored: true, ..no_effect() }),
        Command::Stop => (end_session(w, Stage::Idle, false), end_effect(w, false)),
        Command::SetOnComplete => (
            Worker { has_callback: true, ..w },
            Effect { install_callback: true, ..no_effect() },
        ),
        _ => (w, Effect { defect: true, ..no_effect() }),
    }
}

/// The worker's transition: the state after the event and what to do.
pub open spec fn spec_step(w: Worker, ev: Event) -> (Worker, Effect) {
    let defect = (w, Effect { defect: true, ..no_effect() });
    match w.stage {
        Stage::Idle => match ev {
            Event::Command(c) => idle_command(w, c),
            Event::Disconnected => (Worker { stage: Stage::Done, ..w }, no_effect()),
            _ => defect,
        },
        Stage::Probing => match ev {
            Event::Probed(t) => if t.wf() {
                (Worker { stage: Stage::Idle, session: Some(t), ..w }, no_effect())
            } else {
                (Worker { stage: Stage::Done, failed: true, ..w }, no_effect())
            },
            Event::ProbeFailed => (Worker { stage: Stage::Done, failed: true, ..w }, no_effect()),
            _ => defect,
        },
        Stage::Polling => match ev {
            Event::Command(c) => playing_command(w, c),
            Event::Empty => (Worker { stage: Stage::Decoding, ..w }, no_effect()),
            Event::Disconnected => (end_session(w, Stage::Done, false), end_effect(w, false)),
            _ => defect,
        },
        Stage::Decoding => match ev {
            Event::Retry => (Worker { stage: Stage::Polling, ..w }, no_effect()),
            Event::Packet(ts) => match w.session {
                Some(t) => (
                    Worker {
                        stage: Stage::Writing,
                        duration: wrap(t.spec_duration()),
                        timestamp: wrap(t.time_base.seconds(ts)),
                        last_ts: ts,
                        first_packet_seen: true,
                        ..w
                    },
                    no_effect(),
                ),
                None => defect,
            },
            Event::StreamEnd => (end_session(w, Stage::Idle, false), end_effect(w, w.has_callback)),
            Event::DecodeFailed => (
                end_session(w, Stage::Done, true),
                end_effect(w, w.has_callback),
            ),
            _ => defect,
        },
        Stage::Writing => match ev {
            Event::Written => (Worker { stage: Stage::Polling, output_open: true, ..w }, no_effect()),
            Event::OutputFailed => (
                end_session(w, Stage::Done, true),
                Effect { release_output: true, notify: w.has_callback, ..no_effect() },
            ),
            _ => defect,
        },
        Stage::Paused => match ev {
            Event::Command(c) => paused_command(w, c),
            Event::Disconnected => (end_session(w, Stage::Done, false), end_effect(w, false)),
            _ => defect,
        },
        Stage::Done => defect,
    }
}

impl Worker {
    /// The published state.
    pub open spec fn state(self) -> State {
        state_of(self.stage)
    }

    /// The worker's invariant: a live session has a well-formed track, the
    /// output is open only during a session, a session publishes zero
    /// duration and time until it decodes a packet, and the values of its
    /// last packet after that.
    pub open spec fn wf(self) -> bool {
        &&& (self.session matches Some(t) ==> t.wf())
        &&& (in_session(self.stage) ==> self.session.is_some())
        &&& (self.output_open ==> in_session(self.stage))
        &&& (!self.first_packet_seen && in_session(self.stage) ==> self.timestamp == 0
            && self.duration == 0)
        &&& (self.first_packet_seen && in_session(self.stage) ==> match self.session {
            Some(t) => self.duration == wrap(t.spec_duration()) && self.timestamp == wrap(
                t.time_base.seconds(self.last_ts),
            ),
            None => true,
        })
    }

    /// A worker that is stopped, with no source and no callback, and
    /// publishes zero duration and time.
    pub fn new() -> (r: Worker)
        ensures
            r.wf(),
            r.stage == Stage::Idle,
            r.state() == State::Stopped,
            r.session.is_none(),
            !r.has_callback,
            !r.output_open,
            r.duration == 0,
            r.timestamp == 0,
            !r.failed,
    {
        Worker {
            stage: Stage::Idle,
            session: None,
            has_callback: false,
            output_open: false,
            duration: 0,
            timestamp: 0,
            last_ts: 0,
            first_packet_seen: false,
            failed: false,
        }
    }

    /// The published state.
    pub fn published_state(&self) -> (r: State)
        ensures
            r == self.state(),
    {
        match self.stage {
            Stage::Polling | Stage::Decoding | Stage::Writing => State::Playing,
            Stage::Paused => State::Paused,
            _ => State::Stopped,
        }
    }

    /// The work that the worker asks for next.
    pub fn task(&self) -> (r: Task)
        ensures
            r == task_of(self.stage),
    {
        match self.stage {
            Stage::Idle => Task::Receive,
            Stage::Probing => Task::Probe,
            Stage::Polling => Task::Poll,
            Stage::Decoding => Task::Decode,
            Stage::Writing => Task::Output,
            Stage::Paused => Task::Receive,
            Stage::Done => Task::Exit,
        }
    }
}

impl Effect {
    /// An effect that does nothing.
    pub fn none() -> (r: Effect)
        ensures
            r == no_effect(),
    {
        Effect {
            pause_output: false,
            resume_output: false,
            release_output: false,
            notify: false,
            install_callback: false,
            ignored: false,
            defect: false,
        }
    }
}

impl Worker {
    fn end_session(&self, stage: Stage, failed: bool) -> (r: Worker)
        ensures
            r == end_session(*self, stage, failed),
    {
        Worker { stage, session: None, output_open: false, failed, ..*self }
    }

    fn end_effect(&self, notify: bool) -> (r: Effect)
        ensures
            r == end_effect(*self, notify),
    {
        Effect { release_output: self.output_open, notify, ..Effect::none() }
    }

    fn idle_command(&self, c: Command) -> (r: (Worker, Effect))
        ensures
            r == idle_command(*self, c),
    {
        let w = *self;
        match c {
            Command::Start => match w.session {
                Some(_) => (
                    Worker {
                    stage: Stage::Polling,
                    output_open: false,
                    first_packet_seen: false,
                    duration: 0,
                    timestamp: 0,
                    ..w
                },
                    Effect::none(),
                ),
                None => (w, Effect { defect: true, ..Effect::none() }),
            },
            Command::SetSource => (Worker { stage: Stage::Probing, session: None, ..w }, Effect::none()),
            Command::SetOnComplete => (
                Worker { has_callback: true, ..w },
                Effect { install_callback: true, ..Effect::none() },
            ),
            _ => (w, Effect { ignored: true, ..Effect::none() }),
        }
    }

    fn playing_command(&self, c: Command) -> (r: (Worker, Effect))
        ensures
            r == playing_command(*self, c),
    {
        let w = *self;
        match c {
            Command::Play => (
                Worker { stage: Stage::Decoding, ..w },
                Effect { ignored: true, ..Effect::none() },
            ),
            Command::Pause => (
                Worker { stage: Stage::Paused, ..w },
                Effect { pause_output: w.output_open, ..Effect::none() },
            ),
            Command::Stop => (w.end_session(Stage::Idle, false), w.end_effect(false)),
            Command::SetOnComplete => (
                Worker { stage: Stage::Decoding, has_callback: true, ..w },
                Effect { install_callback: true, ..Effect::none() },
            ),
            _ => (Worker { stage: Stage::Decoding, ..w }, Effect { defect: true, ..Effect::none() }),
        }
    }

    fn paused_command(&self, c: Command) -> (r: (Worker, Effect))
        ensures
            r == paused_command(*self, c),
    {
        let w = *self;
        match c {
            Command::Play => (
                Worker { stage: Stage::Decoding, ..w },
                Effect { resume_output: w.output_open, ..Effect::none() },
            ),
            Command::Pause => (w, Effect { ignored: true, ..Effect::none() }),
            Command::Stop => (w.end_session(Stage::Idle, false), w.end_effect(false)),
            Command::SetOnComplete => (
                Worker { has_callback: true, ..w },
                Effect { install_callback: true, ..Effect::none() },
            ),
            _ => (w, Effect { defect: true, ..Effect::none() }),
        }
    }

    /// Applies what came of the last task: the worker moves as the transition
    /// table says and returns what its runner must do.
    pub fn step(&mut self, ev: Event) -> (eff: Effect)
        requires
            old(self).wf(),
        ensures
            (*final(self), eff) == spec_step(*old(self), ev),
            final(self).wf(),
    {
        let w = *self;
        let defect = (w, Effect { defect: true, ..Effect::none() });
        let (next, eff) = match w.stage {
            Stage::Idle => match ev {
                Event::Command(c) => w.idle_command(c),
                Event::Disconnected => (Worker { stage: Stage::Done, ..w }, Effect::none()),
                _ => defect,
            },
            Stage::Probing => match ev {
                Event::Probed(t) => if t.time_base.numer > 0 && t.time_base.denom > 0 {
                    (Worker { stage: Stage::Idle, session: Some(t), ..w }, Effect::none())
                } else {
                    (Worker { stage: Stage::Done, failed: true, ..w }, Effect::none())
                },
                Event::ProbeFailed => (Worker { stage: Stage::Done, failed: true, ..w }, Effect::none()),
                _ => defect,
            },
            Stage::Polling => match ev {
                Event::Command(c) => w.playing_command(c),
                Event::Empty => (Worker { stage: Stage::Decoding, ..w }, Effect::none()),
                Event::Disconnected => (w.end_session(Stage::Done, false), w.end_effect(false)),
                _ => defect,
            },
            Stage::Decoding => match ev {
                Event::Retry => (Worker { stage: Stage::Polling, ..w }, Effect::none()),
                Event::Packet(ts) => match w.session {
                    Some(t) => {
                        let duration = t.duration();
                        let timestamp = t.time_base.calc_seconds(ts);
                        (
                            Worker {
                                stage: Stage::Writing,
                                duration,
                                timestamp,
                                last_ts: ts,
                                first_packet_seen: true,
                                ..w
                            },
                            Effect::none(),
                        )
                    },
                    None => defect,
                },
                Event::StreamEnd => (w.end_session(Stage::Idle, false), w.end_effect(w.has_callback)),
                Event::DecodeFailed => (w.end_session(Stage::Done, true), w.end_effect(w.has_callback)),
                _ => defect,
            },
            Stage::Writing => match ev {
                Event::Written => (Worker { stage: Stage::Polling, output_open: true, ..w }, Effect::none()),
                Event::OutputFailed => (
                    w.end_session(Stage::Done, true),
                    Effect { release_output: true, notify: w.has_callback, ..Effect::none() },
                ),
                _ => defect,
            },
            Stage::Paused => match ev {
                Event::Command(c) => w.paused_command(c),
                Event::Disconnected => (w.end_session(Stage::Done, false), w.end_effect(false)),
                _ => defect,
            },
            Stage::Done => defect,
        };
        *self = next;
        eff
    }
}

/// The command that a caller's `play()` sends, given the published state:
/// resume when paused, start when stopped, nothing when already playing.
pub open spec fn spec_play_command(s: State) -> Option<Command> {
    match s {
        State::Paused => Some(Command::Play),
        State::Stopped => Some(Command::Start),
        State::Playing => None,
    }
}

/// The command that a caller's `pause()` sends: only a playing track pauses.
pub open spec fn spec_pause_command(s: State) -> Option<Command> {
    match s {
        State::Playing => Some(Command::Pause),
        _ => None,
    }
}

/// The command that a caller's `stop()` sends: only a live track stops.
pub open spec fn spec_stop_command(s: State) -> Option<Command> {
    match s {
        State::Stopped => None,
        _ => Some(Command::Stop),
    }
}

/// The command that `play()` sends for the published state `s`, if any.
pub fn play_command(s: State) -> (r: Option<Command>)
    ensures
        r == spec_play_command(s),
{
    match s {
        State::Paused => Some(Command::Play),
        State::Stopped => Some(Command::Start),
        State::Playing => None,
    }
}

/// The command that `pause()` sends for the published state `s`, if any.
pub fn pause_command(s: State) -> (r: Option<Command>)
    ensures
        r == spec_pause_command(s),
{
    match s {
        State::Playing => Some(Command::Pause),
        _ => None,
    }
}

/// The command that `stop()` sends for the published state `s`, if any.
pub fn stop_command(s: State) -> (r: Option<Command>)
    ensures
        r == spec_stop_command(s),
{
    match s {
        State::Stopped => None,
        _ => Some(Command::Stop),
    }
}

/// The commands that `set_track` sends for the published state `s`: a stop
/// when a track is live, then the new source.
pub fn set_track_commands(s: State) -> (r: Vec<Command>)
    ensures
        r@ == (match spec_stop_command(s) {
            Some(c) => seq![c, Command::SetSource],
            None => seq![Command::SetSource],
        }),
{
    let mut r: Vec<Command> = Vec::new();
    if let Some(c) = stop_command(s) {
        r.push(c);
    }
    r.push(Command::SetSource);
    proof {
        assert(r@ =~= (match spec_stop_command(s) {
            Some(c) => seq![c, Command::SetSource],
            None => seq![Command::SetSource],
        }));
    }
    r
}

/// A command that is a no-op in the current state changes nothing: the
/// caller sends no `Play` while playing and no `Pause` while paused, and a
/// worker that takes one anyway keeps its published state, session, output
/// and published values, and fires no callback.
pub proof fn lemma_redundant_command_is_noop(w: Worker)
    requires
        w.wf(),
    ensures
        spec_play_command(State::Playing) is None,
        spec_pause_command(State::Paused) is None,
        w.stage == Stage::Polling ==> {
            let (n, e) = spec_step(w, Event::Command(Command::Play));
            &&& n.state() == State::Playing
            &&& n.session == w.session
            &&& n.output_open == w.output_open
            &&& n.duration == w.duration
            &&& n.timestamp == w.timestamp
            &&& n.stage == Stage::Decoding
            &&& e == Effect { ignored: true, ..no_effect() }
            &&& !e.pause_output && !e.resume_output && !e.release_output && !e.notify
        },
        w.stage == Stage::Paused ==> spec_step(w, Event::Command(Command::Pause)) == (
            w,
            Effect { ignored: true, ..no_effect() },
        ),
{
}

/// `Stop` from any state that is not stopped: the caller sends it, and the
/// worker that takes it publishes `Stopped`, releases the hardware stream
/// if one is open, drops the session and fires no callback.
pub proof fn lemma_stop_releases_output(w: Worker)
    requires
        w.wf(),
        w.stage == Stage::Polling || w.stage == Stage::Paused,
    ensures
        spec_stop_command(w.state()) == Some(Command::Stop),
        ({
            let (n, e) = spec_step(w, Event::Command(Command::Stop));
            &&& n.state() == State::Stopped
            &&& n.stage == Stage::Idle
            &&& !n.output_open
            &&& n.session.is_none()
            &&& e.release_output == w.output_open
            &&& !e.notify
            &&& n.wf()
        }),
{
}

/// The published time never goes back while playing: a track starts from
/// zero, and each later packet, coming in timestamp order with a time that
/// fits in `u64`, moves it forward or leaves it; while paused it does not
/// change at all.
pub proof fn lemma_timestamp_monotonic(w: Worker, ev: Event)
    requires
        w.wf(),
    ensures
        w.stage == Stage::Paused ==> spec_step(w, ev).0.timestamp == w.timestamp,
        (is_playing_stage(w.stage) && (ev matches Event::Packet(ts) ==> w.first_packet_seen ==> ts
            >= w.last_ts && w.session.unwrap().time_base.seconds(ts) < u64_span())) ==> spec_step(
            w,
            ev,
        ).0.timestamp >= w.timestamp,
{
    if w.stage == Stage::Decoding && w.first_packet_seen {
        if let Event::Packet(ts) = ev {
            if ts >= w.last_ts {
                let t = w.session.unwrap();
                if t.time_base.seconds(ts) < u64_span() {
                    crate::timing::lemma_seconds_monotonic(t.time_base, w.last_ts, ts);
                    let a = t.time_base.seconds(w.last_ts);
                    let b = t.time_base.seconds(ts);
                    assert(a >= 0) by (nonlinear_arith)
                        requires
                            a == w.last_ts as int * t.time_base.numer as int
                                / t.time_base.denom as int,
                            t.time_base.denom > 0,
                    ;
                    vstd::arithmetic::div_mod::lemma_small_mod(a as nat, u64_span() as nat);
                    vstd::arithmetic::div_mod::lemma_small_mod(b as nat, u64_span() as nat);
                }
            }
        }
    }
}

/// Once a session has decoded its first packet, the published duration does
/// not change for the rest of the session, nor when it ends.
pub proof fn lemma_duration_stable(w: Worker, ev: Event)
    requires
        w.wf(),
        in_session(w.stage),
        w.first_packet_seen,
    ensures
        spec_step(w, ev).0.duration == w.duration,
{
}

/// The completion callback fires only as a live session ends by itself (end
/// of stream, a fatal decode error or an output failure), and then exactly
/// when one is registered; `Stop` never fires it, and once the session has
/// ended nothing fires it again until another track starts. So it fires
/// once per track that ends naturally or fails, and never for a stopped one.
pub proof fn lemma_completion_fires_once(w: Worker, ev: Event)
    requires
        w.wf(),
    ensures
        ({
            let (n, e) = spec_step(w, ev);
            &&& e.notify ==> in_session(w.stage) && !in_session(n.stage) && n.session.is_none()
            &&& e.notify ==> ev == Event::StreamEnd || ev == Event::DecodeFailed || ev
                == Event::OutputFailed
            &&& e.notify ==> n.state() == State::Stopped
            &&& ev == Event::Command(Command::Stop) ==> !e.notify
            &&& !in_session(w.stage) ==> !e.notify
            &&& (w.stage == Stage::Decoding && (ev == Event::StreamEnd || ev
                == Event::DecodeFailed)) ==> e.notify == w.has_callback
            &&& (w.stage == Stage::Writing && ev == Event::OutputFailed) ==> e.notify
                == w.has_callback
        }),
        !in_session(w.stage) && !(w.stage == Stage::Idle && ev == Event::Command(Command::Start))
            ==> !in_session(spec_step(w, ev).0.stage),
{
}

/// `play()`, then `pause()`, then `play()` on a stopped player with a source
/// set: the caller sends `Start`, `Pause` and `Play` as the published state
/// moves through `Playing`, `Paused`, `Playing`, and no callback fires.
pub proof fn lemma_play_pause_play(w: Worker)
    requires
        w.wf(),
        w.stage == Stage::Idle,
        w.session.is_some(),
    ensures
        ({
            let (s1, e1) = spec_step(w, Event::Command(Command::Start));
            let (s2, e2) = spec_step(s1, Event::Command(Command::Pause));
            let (s3, e3) = spec_step(s2, Event::Command(Command::Play));
            &&& spec_play_command(w.state()) == Some(Command::Start)
            &&& s1.state() == State::Playing
            &&& spec_pause_command(s1.state()) == Some(Command::Pause)
            &&& s2.state() == State::Paused
            &&& spec_play_command(s2.state()) == Some(Command::Play)
            &&& s3.state() == State::Playing
            &&& !e1.notify && !e2.notify && !e3.notify
            &&& !e1.defect && !e2.defect && !e3.defect
        }),
{
}

/// The worker after a run of events, and how many times the callback fired.
pub open spec fn run(w: Worker, evs: Seq<Event>) -> (Worker, nat)
    decreases evs.len(),
{
    if evs.len() == 0 {
        (w, 0)
    } else {
        let (n, e) = spec_step(w, evs[0]);
        let (last, count) = run(n, evs.drop_first());
        (last, count + if e.notify {
            1nat
        } else {
            0nat
        })
    }
}

/// Every transition keeps the worker's invariant.
pub proof fn lemma_step_keeps_wf(w: Worker, ev: Event)
    requires
        w.wf(),
    ensures
        spec_step(w, ev).0.wf(),
{
}

/// Between two starts the completion callback fires at most once: over any
/// run of events without `Start`, it fires at most once, and not at all
/// when the run begins outside a session.
pub proof fn lemma_completion_at_most_once(w: Worker, evs: Seq<Event>)
    requires
        w.wf(),
        forall|i: int| 0 <= i < evs.len() ==> evs[i] != Event::Command(Command::Start),
    ensures
        run(w, evs).1 <= 1,
        !in_session(w.stage) ==> run(w, evs).1 == 0,
    decreases evs.len(),
{
    if evs.len() > 0 {
        let ev = evs[0];
        lemma_completion_fires_once(w, ev);
        lemma_step_keeps_wf(w, ev);
        let rest = evs.drop_first();
        assert forall|i: int| 0 <= i < rest.len() implies rest[i] != Event::Command(
            Command::Start,
        ) by {
            assert(rest[i] == evs[i + 1]);
        }
        lemma_completion_at_most_once(spec_step(w, ev).0, rest);
    }
}

} // verus!
