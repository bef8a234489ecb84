//! The recording session: the state that the hotkey, the worker's events and
//! the worker's lifecycle act on. Each transition changes the session and
//! returns what the caller is to do next, in order; the caller performs the
//! writes, notifications and waits under its own lock and scheduler.

use crate::actions::{Action, ActionView, Notification};
use crate::config::Config;
use crate::machine::{
    after_config_saved, after_event, after_events, after_failure, after_press, after_release,
    after_timeout, after_worker_lost, after_worker_started, cancel_timeout, emitted,
    event_actions, events_actions, failure_actions, initial, next, press_actions,
    release_actions, timeout_actions, worker_lost_actions, worker_started_actions, Failure,
    SessionState, SessionView, TriggerView,
};
use crate::protocol::{decode_all, decoded_events, EventView, ProtocolCommand, ProtocolEvent};
use vstd::prelude::*;

verus! {

/// The longest wait for a transcript that a session allows unless told
/// otherwise: two minutes.
pub const DEFAULT_CEILING_MS: u64 = 120_000;

/// Where a session stands, with what only that state has.
#[derive(Debug)]
enum Phase {
    Idle,
    Recording { started_at: u64 },
    Transcribing { deadline: u64 },
}

/// The one recording session of the application.
#[derive(Debug)]
pub struct Session {
    phase: Phase,
    worker_input: Option<u64>,
    model_ready: bool,
    config: Config,
    ceiling_ms: u64,
}

impl View for Session {
    type V = SessionView;

    closed spec fn view(&self) -> SessionView {
        SessionView {
            state: match self.phase {
                Phase::Idle => SessionState::Idle,
                Phase::Recording { .. } => SessionState::Recording,
                Phase::Transcribing { .. } => SessionState::Transcribing,
            },
            started_at: match self.phase {
                Phase::Recording { started_at } => Some(started_at),
                _ => None,
            },
            deadline: match self.phase {
                Phase::Transcribing { deadline } => Some(deadline),
                _ => None,
            },
            worker_input: self.worker_input,
            model_ready: self.model_ready,
            config: self.config@,
            ceiling_ms: self.ceiling_ms,
        }
    }
}

/// Anything that can happen to a session.
#[derive(Debug, Clone, PartialEq, Eq)]
pub enum Trigger {
    /// The hotkey went down at `now`.
    Press { now: u64 },
    /// The hotkey went up at `now`.
    Release { now: u64 },
    /// The worker reported an event.
    Event(ProtocolEvent),
    /// A worker was started; `sink` is its command sink.
    WorkerStarted { sink: u64 },
    /// The worker's output ended, or a write to its input failed.
    WorkerLost,
    /// The timer armed for a transcription ran out at `now`.
    Timeout { now: u64 },
    /// New settings were saved.
    ConfigSaved(Config),
}

impl View for Trigger {
    type V = TriggerView;

    open spec fn view(&self) -> TriggerView {
        match self {
            Trigger::Press { now } => TriggerView::Press { now: *now },
            Trigger::Release { now } => TriggerView::Release { now: *now },
            Trigger::Event(event) => TriggerView::Event(event@),
            Trigger::WorkerStarted { sink } => TriggerView::WorkerStarted { sink: *sink },
            Trigger::WorkerLost => TriggerView::WorkerLost,
            Trigger::Timeout { now } => TriggerView::Timeout { now: *now },
            Trigger::ConfigSaved(config) => TriggerView::ConfigSaved(config@),
        }
    }
}

impl Session {
    #[verifier::type_invariant]
    spec fn inv(self) -> bool {
        self.worker_input is None ==> self.phase is Idle
    }

    /// An idle session without a worker, with the given settings and the
    /// longest wait for a transcript in milliseconds.
    pub fn new(config: Config, ceiling_ms: u64) -> (session: Session)
        ensures
            session@ == initial(config@, ceiling_ms),
            session@.wf(),
    {
        Session { phase: Phase::Idle, worker_input: None, model_ready: false, config, ceiling_ms }
    }

    /// Where the session stands.
    pub fn state(&self) -> (state: SessionState)
        ensures
            state == self@.state,
    {
        match self.phase {
            Phase::Idle => SessionState::Idle,
            Phase::Recording { .. } => SessionState::Recording,
            Phase::Transcribing { .. } => SessionState::Transcribing,
        }
    }

    /// Whether a recording is in progress.
    pub fn is_recording(&self) -> (recording: bool)
        ensures
            recording == self@.recording(),
    {
        match self.phase {
            Phase::Recording { .. } => true,
            _ => false,
        }
    }

    /// When the recording in progress began.
    pub fn started_at(&self) -> (started_at: Option<u64>)
        ensures
            started_at == self@.started_at,
    {
        match self.phase {
            Phase::Recording { started_at } => Some(started_at),
            _ => None,
        }
    }

    /// When the wait for the transcript in progress is given up.
    pub fn deadline(&self) -> (deadline: Option<u64>)
        ensures
            deadline == self@.deadline,
    {
        match self.phase {
            Phase::Transcribing { deadline } => Some(deadline),
            _ => None,
        }
    }

    /// The command sink of the running worker, if one runs.
    pub fn worker_input(&self) -> (sink: Option<u64>)
        ensures
            sink == self@.worker_input,
    {
        self.worker_input
    }

    /// Whether the worker has reported that its model is loaded.
    pub fn model_ready(&self) -> (ready: bool)
        ensures
            ready == self@.model_ready,
    {
        self.model_ready
    }

    /// The settings in force.
    pub fn config(&self) -> (config: &Config)
        ensures
            config@ == self@.config,
    {
        &self.config
    }

    /// The longest wait for a transcript, in milliseconds.
    pub fn ceiling_ms(&self) -> (ceiling_ms: u64)
        ensures
            ceiling_ms == self@.ceiling_ms,
    {
        self.ceiling_ms
    }

    /// Begins a recording: the hotkey went down. Only an idle session with a
    /// running worker starts recording; any other session stays as it is and
    /// asks for nothing, so a repeated press is harmless.
    pub fn begin(&mut self, now: u64) -> (actions: Vec<Action>)
        ensures
            final(self)@ == after_press(old(self)@, now),
            actions.deep_view() == press_actions(old(self)@, now),
            final(self)@.wf(),
    {
        proof {
            use_type_invariant(&*self);
        }
        let mut actions: Vec<Action> = Vec::new();
        let starts = match self.phase {
            Phase::Idle => self.worker_input.is_some(),
            _ => false,
        };
        if starts {
            self.phase = Phase::Recording { started_at: now };
            actions.push(
                Action::Send(ProtocolCommand::StartRecording { device_id: self.config.device_id }),
            );
            actions.push(Action::Notify(Notification::RecordingStarted));
        }
        assert(actions.deep_view() =~= press_actions(old(self)@, now));
        actions
    }

    /// Ends a recording: the hotkey went up. A recording session asks the
    /// worker for the transcript and arms the timeout; any other session
    /// stays as it is and asks for nothing, so a stray release is harmless.
    pub fn end(&mut self, now: u64) -> (actions: Vec<Action>)
        ensures
            final(self)@ == after_release(old(self)@, now),
            actions.deep_view() == release_actions(old(self)@, now),
            final(self)@.wf(),
    {
        proof {
            use_type_invariant(&*self);
        }
        let mut actions: Vec<Action> = Vec::new();
        if let Phase::Recording { started_at } = self.phase {
            let duration_ms = if now >= started_at {
                now - started_at
            } else {
                0
            };
            let deadline = match now.checked_add(self.ceiling_ms) {
                Some(deadline) => deadline,
                None => u64::MAX,
            };
            self.phase = Phase::Transcribing { deadline };
            actions.push(Action::Notify(Notification::RecordingStopped { duration_ms }));
            actions.push(
                Action::Send(
                    ProtocolCommand::StopAndTranscribe {
                        output_mode: self.config.output_mode.clone(),
                    },
                ),
            );
            actions.push(Action::Notify(Notification::TranscriptionStarted));
            actions.push(Action::ArmTimeout { deadline });
        }
        assert(actions.deep_view() =~= release_actions(old(self)@, now));
        actions
    }

    /// The worker reported an event. Every event but an unknown status is
    /// passed on to the user interface; a result or an error also ends the
    /// transcription in progress.
    pub fn handle_event(&mut self, event: &ProtocolEvent) -> (actions: Vec<Action>)
        ensures
            final(self)@ == after_event(old(self)@, event@),
            actions.deep_view() == event_actions(old(self)@, event@),
            final(self)@.wf(),
    {
        proof {
            use_type_invariant(&*self);
        }
        let mut actions: Vec<Action> = Vec::new();
        match event {
            ProtocolEvent::AudioLevel { bits } => {
                actions.push(Action::Notify(Notification::AudioLevel { bits: *bits }));
            },
            ProtocolEvent::StatusChanged { name } => {
                let loaded = "model_loaded".to_string();
                if *name == loaded {
                    self.model_ready = true;
                    actions.push(Action::Notify(Notification::ModelReady));
                }
            },
            ProtocolEvent::TranscriptionResult { text, copied, typed, .. } => {
                self.end_transcription(&mut actions);
                actions.push(
                    Action::Notify(
                        Notification::TranscriptionDone {
                            text: text.clone(),
                            copied: *copied,
                            typed: *typed,
                        },
                    ),
                );
            },
            ProtocolEvent::TranscriptionError { message } => {
                self.end_transcription(&mut actions);
                actions.push(
                    Action::Notify(Notification::TranscriptionFailed { error: message.clone() }),
                );
            },
        }
        assert(actions.deep_view() =~= event_actions(old(self)@, event@));
        actions
    }

    /// Brings a transcribing session back to idle and cancels its timeout.
    fn end_transcription(&mut self, actions: &mut Vec<Action>)
        requires
            old(actions)@.len() == 0,
        ensures
            final(self)@ == (if old(self)@.state == SessionState::Transcribing {
                old(self)@.idle()
            } else {
                old(self)@
            }),
            final(actions).deep_view() == cancel_timeout(old(self)@),
    {
        proof {
            use_type_invariant(&*self);
        }
        if let Phase::Transcribing { .. } = self.phase {
            self.phase = Phase::Idle;
            actions.push(Action::CancelTimeout);
        }
        assert(actions.deep_view() =~= cancel_timeout(old(self)@));
    }

    /// A worker was started and `sink` is its command sink: the session keeps
    /// the sink and asks the worker to load the configured model.
    pub fn worker_started(&mut self, sink: u64) -> (actions: Vec<Action>)
        ensures
            final(self)@ == after_worker_started(old(self)@, sink),
            actions.deep_view() == worker_started_actions(old(self)@),
            final(self)@.wf(),
    {
        proof {
            use_type_invariant(&*self);
        }
        self.worker_input = Some(sink);
        self.model_ready = false;
        let mut actions: Vec<Action> = Vec::new();
        actions.push(Action::Send(ProtocolCommand::LoadModel { model_id: self.config.model.clone() }));
        assert(actions.deep_view() =~= worker_started_actions(old(self)@));
        actions
    }

    /// The worker's output ended or a write to its input failed: the session
    /// forgets the sink, and one in progress ends with an error.
    pub fn worker_lost(&mut self) -> (actions: Vec<Action>)
        ensures
            final(self)@ == after_worker_lost(old(self)@),
            actions.deep_view() == worker_lost_actions(old(self)@),
            final(self)@.wf(),
    {
        proof {
            use_type_invariant(&*self);
        }
        let mut actions: Vec<Action> = Vec::new();
        let in_progress = match self.phase {
            Phase::Idle => false,
            _ => true,
        };
        self.end_transcription(&mut actions);
        self.phase = Phase::Idle;
        self.worker_input = None;
        self.model_ready = false;
        if in_progress {
            actions.push(
                Action::Notify(
                    Notification::TranscriptionFailed {
                        error: "Transcription worker stopped".to_string(),
                    },
                ),
            );
        }
        assert(actions.deep_view() =~= worker_lost_actions(old(self)@));
        actions
    }

    /// Something failed around the worker. A failed write and the end of the
    /// worker's output count as the loss of the worker; a worker that could
    /// not be started and a line that could not be decoded change nothing.
    pub fn handle_failure(&mut self, failure: Failure) -> (actions: Vec<Action>)
        ensures
            final(self)@ == after_failure(old(self)@, failure),
            actions.deep_view() == failure_actions(old(self)@, failure),
            final(self)@.wf(),
    {
        proof {
            use_type_invariant(&*self);
        }
        match failure {
            Failure::Write | Failure::WorkerExit => self.worker_lost(),
            Failure::Spawn | Failure::Decode => {
                let actions: Vec<Action> = Vec::new();
                assert(actions.deep_view() =~= Seq::<ActionView>::empty());
                actions
            },
        }
    }

    /// The timer armed for a transcription ran out. A session that is still
    /// transcribing at or after its deadline gives up and returns to idle;
    /// any other session stays as it is.
    pub fn timeout(&mut self, now: u64) -> (actions: Vec<Action>)
        ensures
            final(self)@ == after_timeout(old(self)@, now),
            actions.deep_view() == timeout_actions(old(self)@, now),
            final(self)@.wf(),
    {
        proof {
            use_type_invariant(&*self);
        }
        let mut actions: Vec<Action> = Vec::new();
        let fires = match self.phase {
            Phase::Transcribing { deadline } => now >= deadline,
            _ => false,
        };
        if fires {
            self.phase = Phase::Idle;
            actions.push(
                Action::Notify(
                    Notification::TranscriptionFailed {
                        error: "Transcription timed out".to_string(),
                    },
                ),
            );
        }
        assert(actions.deep_view() =~= timeout_actions(old(self)@, now));
        actions
    }

    /// New settings were saved: they are in force from the next transition.
    pub fn set_config(&mut self, config: Config)
        ensures
            final(self)@ == after_config_saved(old(self)@, config@),
            final(self)@.wf(),
    {
        proof {
            use_type_invariant(&*self);
        }
        self.config = config;
    }

    /// Applies one trigger and returns what it asks for.
    pub fn step(&mut self, trigger: Trigger) -> (actions: Vec<Action>)
        ensures
            final(self)@ == next(old(self)@, trigger@),
            actions.deep_view() == emitted(old(self)@, trigger@),
            final(self)@.wf(),
    {
        match trigger {
            Trigger::Press { now } => self.begin(now),
            Trigger::Release { now } => self.end(now),
            Trigger::Event(event) => self.handle_event(&event),
            Trigger::WorkerStarted { sink } => self.worker_started(sink),
            Trigger::WorkerLost => self.worker_lost(),
            Trigger::Timeout { now } => self.timeout(now),
            Trigger::ConfigSaved(config) => {
                self.set_config(config);
                let actions: Vec<Action> = Vec::new();
                assert(actions.deep_view() =~= Seq::<ActionView>::empty());
                actions
            },
        }
    }

    /// Applies the events of a decoded line in order and returns what they
    /// ask for.
    pub fn handle_events(&mut self, events: &Vec<ProtocolEvent>) -> (actions: Vec<Action>)
        ensures
            final(self)@ == after_events(old(self)@, events.deep_view()),
            actions.deep_view() == events_actions(old(self)@, events.deep_view()),
            final(self)@.wf(),
    {
        proof {
            use_type_invariant(&*self);
        }
        let mut actions: Vec<Action> = Vec::new();
        let ghost all = events.deep_view();
        let mut i: usize = 0;
        assert(actions.deep_view() =~= Seq::<ActionView>::empty());
        assert(all.take(0) =~= Seq::<EventView>::empty());
        while i < events.len()
            invariant
                i <= events.len(),
                all == events.deep_view(),
                self@ == after_events(old(self)@, all.take(i as int)),
                actions.deep_view() == events_actions(old(self)@, all.take(i as int)),
                self@.wf(),
            decreases events.len() - i,
        {
            let ghost before = actions.deep_view();
            let ghost prefix = all.take(i as int);
            let ghost longer = all.take(i + 1);
            let mut more = self.handle_event(&events[i]);
            let ghost added = more.deep_view();
            actions.append(&mut more);
            proof {
                assert(longer.drop_last() =~= prefix);
                assert(longer.last() == events[i as int]@);
                assert(actions.deep_view() =~= before + added);
            }
            i = i + 1;
        }
        assert(all.take(i as int) =~= all);
        actions
    }

    /// Decodes one line of worker output and applies its events. A line that
    /// stands for no event changes nothing and asks for nothing.
    pub fn handle_line(&mut self, line: &str) -> (actions: Vec<Action>)
        ensures
            final(self)@ == after_events(old(self)@, decoded_events(line@)),
            actions.deep_view() == events_actions(old(self)@, decoded_events(line@)),
            final(self)@.wf(),
    {
        let events = decode_all(line);
        self.handle_events(&events)
    }
}

} // verus!
