//! The recording session as a state machine over mathematical values: what
//! each trigger makes of a session, and what it asks the surroundings to do.
//!
//! Time is a count of milliseconds on a monotonic clock that the caller
//! reads. The worker's command sink is known to the session by a number that
//! the caller chose for it.

use crate::actions::{ActionView, NotificationView};
use crate::config::ConfigView;
use crate::protocol::{CommandView, EventView};
use vstd::prelude::*;

verus! {

/// Where a session stands.
#[derive(Debug, Clone, Copy, PartialEq, Eq, Structural)]
pub enum SessionState {
    /// Nothing is being captured or transcribed.
    Idle,
    /// The hotkey is held and the worker captures audio.
    Recording,
    /// The worker was asked for a transcript and has not answered yet.
    Transcribing,
}

/// The mathematical content of a session.
pub struct SessionView {
    pub state: SessionState,
    /// When the recording in progress began.
    pub started_at: Option<u64>,
    /// When the wait for the transcript in progress is given up.
    pub deadline: Option<u64>,
    /// The command sink of the running worker; `None` while no worker runs.
    pub worker_input: Option<u64>,
    /// Whether the worker has reported that its model is loaded.
    pub model_ready: bool,
    pub config: ConfigView,
    /// The longest wait for a transcript, in milliseconds.
    pub ceiling_ms: u64,
}

impl SessionView {
    /// The invariant of a session: a start time exactly while recording, a
    /// deadline exactly while transcribing, and a worker whenever the
    /// session is not idle.
    pub open spec fn wf(self) -> bool {
        &&& self.state == SessionState::Recording <==> self.started_at is Some
        &&& self.state == SessionState::Transcribing <==> self.deadline is Some
        &&& self.state != SessionState::Idle ==> self.worker_input is Some
    }

    /// Whether a recording is in progress.
    pub open spec fn recording(self) -> bool {
        self.state == SessionState::Recording
    }

    /// The session brought back to `Idle`, everything else unchanged.
    pub open spec fn idle(self) -> SessionView {
        SessionView { state: SessionState::Idle, started_at: None, deadline: None, ..self }
    }
}

/// The session of a freshly started application: idle, without a worker.
pub open spec fn initial(config: ConfigView, ceiling_ms: u64) -> SessionView {
    SessionView {
        state: SessionState::Idle,
        started_at: None,
        deadline: None,
        worker_input: None,
        model_ready: false,
        config,
        ceiling_ms,
    }
}

/// The milliseconds from `started_at` to `now`; zero where the clock reads
/// earlier than the start.
pub open spec fn elapsed_ms(started_at: u64, now: u64) -> u64 {
    if now >= started_at {
        (now - started_at) as u64
    } else {
        0
    }
}

/// The time `ceiling_ms` after `now`, or the end of the clock if that comes
/// first.
pub open spec fn deadline_after(now: u64, ceiling_ms: u64) -> u64 {
    if now + ceiling_ms <= u64::MAX {
        (now + ceiling_ms) as u64
    } else {
        u64::MAX
    }
}

/// The status with which the worker reports that its model is loaded.
pub open spec fn model_loaded_status() -> Seq<char> {
    "model_loaded"@
}

/// The reason shown when the worker is lost while a session is in progress.
pub open spec fn worker_lost_message() -> Seq<char> {
    "Transcription worker stopped"@
}

/// The reason shown when no transcript arrived before the deadline.
pub open spec fn timeout_message() -> Seq<char> {
    "Transcription timed out"@
}

/// Cancelling the timeout, where one is armed.
pub open spec fn cancel_timeout(s: SessionView) -> Seq<ActionView> {
    if s.state == SessionState::Transcribing {
        seq![ActionView::CancelTimeout]
    } else {
        Seq::empty()
    }
}

/// Whether a press of the hotkey starts a recording: only an idle session
/// with a running worker does.
pub open spec fn press_starts(s: SessionView) -> bool {
    s.state == SessionState::Idle && s.worker_input is Some
}

/// The session after a press of the hotkey at `now`.
pub open spec fn after_press(s: SessionView, now: u64) -> SessionView {
    if press_starts(s) {
        SessionView { state: SessionState::Recording, started_at: Some(now), ..s }
    } else {
        s
    }
}

/// What a press of the hotkey asks for.
pub open spec fn press_actions(s: SessionView, now: u64) -> Seq<ActionView> {
    if press_starts(s) {
        seq![
            ActionView::Send(CommandView::StartRecording { device_id: s.config.device_id }),
            ActionView::Notify(NotificationView::RecordingStarted),
        ]
    } else {
        Seq::empty()
    }
}

/// The session after a release of the hotkey at `now`.
pub open spec fn after_release(s: SessionView, now: u64) -> SessionView {
    if s.state == SessionState::Recording {
        SessionView {
            state: SessionState::Transcribing,
            started_at: None,
            deadline: Some(deadline_after(now, s.ceiling_ms)),
            ..s
        }
    } else {
        s
    }
}

/// What a release of the hotkey asks for.
pub open spec fn release_actions(s: SessionView, now: u64) -> Seq<ActionView> {
    if s.state == SessionState::Recording {
        seq![
            ActionView::Notify(
                NotificationView::RecordingStopped {
                    duration_ms: elapsed_ms(s.started_at->0, now),
                },
            ),
            ActionView::Send(
                CommandView::StopAndTranscribe { output_mode: s.config.output_mode },
            ),
            ActionView::Notify(NotificationView::TranscriptionStarted),
            ActionView::ArmTimeout { deadline: deadline_after(now, s.ceiling_ms) },
        ]
    } else {
        Seq::empty()
    }
}

/// The session after an event from the worker.
pub open spec fn after_event(s: SessionView, e: EventView) -> SessionView {
    match e {
        EventView::AudioLevel { .. } => s,
        EventView::StatusChanged { name } => if name == model_loaded_status() {
            SessionView { model_ready: true, ..s }
        } else {
            s
        },
        EventView::TranscriptionResult { .. } | EventView::TranscriptionError { .. } => if s.state
            == SessionState::Transcribing {
            s.idle()
        } else {
            s
        },
    }
}

/// What an event from the worker asks for: every event but an unknown status
/// is passed on to the user interface, and one that ends a transcription
/// cancels the timeout first.
pub open spec fn event_actions(s: SessionView, e: EventView) -> Seq<ActionView> {
    match e {
        EventView::AudioLevel { bits } => seq![
            ActionView::Notify(NotificationView::AudioLevel { bits }),
        ],
        EventView::StatusChanged { name } => if name == model_loaded_status() {
            seq![ActionView::Notify(NotificationView::ModelReady)]
        } else {
            Seq::empty()
        },
        EventView::TranscriptionResult { text, copied, typed, .. } => cancel_timeout(s).push(
            ActionView::Notify(NotificationView::TranscriptionDone { text, copied, typed }),
        ),
        EventView::TranscriptionError { message } => cancel_timeout(s).push(
            ActionView::Notify(NotificationView::TranscriptionFailed { error: message }),
        ),
    }
}

/// The session after a worker was started whose command sink is `sink`.
pub open spec fn after_worker_started(s: SessionView, sink: u64) -> SessionView {
    SessionView { worker_input: Some(sink), model_ready: false, ..s }
}

/// What the start of a worker asks for: loading the configured model.
pub open spec fn worker_started_actions(s: SessionView) -> Seq<ActionView> {
    seq![ActionView::Send(CommandView::LoadModel { model_id: s.config.model })]
}

/// The session after its worker was lost: no sink, and idle.
pub open spec fn after_worker_lost(s: SessionView) -> SessionView {
    SessionView { worker_input: None, model_ready: false, ..s.idle() }
}

/// What the loss of the worker asks for: where a session was in progress,
/// an error for the user interface.
pub open spec fn worker_lost_actions(s: SessionView) -> Seq<ActionView> {
    if s.state == SessionState::Idle {
        Seq::empty()
    } else {
        cancel_timeout(s).push(
            ActionView::Notify(
                NotificationView::TranscriptionFailed { error: worker_lost_message() },
            ),
        )
    }
}

/// A failure around the worker, as its caller meets it.
#[derive(Debug, Clone, Copy, PartialEq, Eq, Structural)]
pub enum Failure {
    /// No executable was found, or the process could not be started.
    Spawn,
    /// A line of the worker's output could not be decoded.
    Decode,
    /// A write to the worker's input failed.
    Write,
    /// The worker's output ended.
    WorkerExit,
}

impl Failure {
    /// Whether the failure means that the worker is gone. A worker that
    /// could not be started was never there, and a line that could not be
    /// decoded is dropped.
    pub open spec fn loses_worker(self) -> bool {
        self == Failure::Write || self == Failure::WorkerExit
    }
}

/// The session after a failure: one that means the worker is gone acts as
/// the loss of the worker, and any other changes nothing.
pub open spec fn after_failure(s: SessionView, failure: Failure) -> SessionView {
    if failure.loses_worker() {
        after_worker_lost(s)
    } else {
        s
    }
}

/// What a failure asks for.
pub open spec fn failure_actions(s: SessionView, failure: Failure) -> Seq<ActionView> {
    if failure.loses_worker() {
        worker_lost_actions(s)
    } else {
        Seq::empty()
    }
}

/// Whether a timeout reported at `now` ends the wait for a transcript.
pub open spec fn timeout_fires(s: SessionView, now: u64) -> bool {
    &&& s.state == SessionState::Transcribing
    &&& s.deadline matches Some(deadline)
    &&& now >= deadline
}

/// The session after a timeout was reported at `now`.
pub open spec fn after_timeout(s: SessionView, now: u64) -> SessionView {
    if timeout_fires(s, now) {
        s.idle()
    } else {
        s
    }
}

/// What a timeout asks for: where it ends the wait, an error for the user
/// interface.
pub open spec fn timeout_actions(s: SessionView, now: u64) -> Seq<ActionView> {
    if timeout_fires(s, now) {
        seq![
            ActionView::Notify(
                NotificationView::TranscriptionFailed { error: timeout_message() },
            ),
        ]
    } else {
        Seq::empty()
    }
}

/// The session after new settings were saved.
pub open spec fn after_config_saved(s: SessionView, config: ConfigView) -> SessionView {
    SessionView { config, ..s }
}

/// Anything that can happen to a session.
pub enum TriggerView {
    /// The hotkey went down at `now`.
    Press { now: u64 },
    /// The hotkey went up at `now`.
    Release { now: u64 },
    /// The worker reported an event.
    Event(EventView),
    /// A worker was started; `sink` is its command sink.
    WorkerStarted { sink: u64 },
    /// The worker's output ended, or a write to its input failed.
    WorkerLost,
    /// The timer armed for a transcription ran out at `now`.
    Timeout { now: u64 },
    /// New settings were saved.
    ConfigSaved(ConfigView),
}

/// The session after a trigger.
pub open spec fn next(s: SessionView, t: TriggerView) -> SessionView {
    match t {
        TriggerView::Press { now } => after_press(s, now),
        TriggerView::Release { now } => after_release(s, now),
        TriggerView::Event(e) => after_event(s, e),
        TriggerView::WorkerStarted { sink } => after_worker_started(s, sink),
        TriggerView::WorkerLost => after_worker_lost(s),
        TriggerView::Timeout { now } => after_timeout(s, now),
        TriggerView::ConfigSaved(config) => after_config_saved(s, config),
    }
}

/// What a trigger asks for.
pub open spec fn emitted(s: SessionView, t: TriggerView) -> Seq<ActionView> {
    match t {
        TriggerView::Press { now } => press_actions(s, now),
        TriggerView::Release { now } => release_actions(s, now),
        TriggerView::Event(e) => event_actions(s, e),
        TriggerView::WorkerStarted { .. } => worker_started_actions(s),
        TriggerView::WorkerLost => worker_lost_actions(s),
        TriggerView::Timeout { now } => timeout_actions(s, now),
        TriggerView::ConfigSaved(_) => Seq::empty(),
    }
}

/// The session after a run of worker events, taken in order.
pub open spec fn after_events(s: SessionView, events: Seq<EventView>) -> SessionView
    decreases events.len(),
{
    if events.len() == 0 {
        s
    } else {
        after_event(after_events(s, events.drop_last()), events.last())
    }
}

/// What a run of worker events asks for, in order.
pub open spec fn events_actions(s: SessionView, events: Seq<EventView>) -> Seq<ActionView>
    decreases events.len(),
{
    if events.len() == 0 {
        Seq::empty()
    } else {
        events_actions(s, events.drop_last()) + event_actions(
            after_events(s, events.drop_last()),
            events.last(),
        )
    }
}

/// The session after a run of triggers, taken in order.
pub open spec fn after_all(s: SessionView, triggers: Seq<TriggerView>) -> SessionView
    decreases triggers.len(),
{
    if triggers.len() == 0 {
        s
    } else {
        next(after_all(s, triggers.drop_last()), triggers.last())
    }
}

/// What a run of triggers asks for, in order.
pub open spec fn emitted_by_all(s: SessionView, triggers: Seq<TriggerView>) -> Seq<ActionView>
    decreases triggers.len(),
{
    if triggers.len() == 0 {
        Seq::empty()
    } else {
        emitted_by_all(s, triggers.drop_last()) + emitted(
            after_all(s, triggers.drop_last()),
            triggers.last(),
        )
    }
}

} // verus!
