//! What a session transition asks of its surroundings: a command for the
//! worker, a notification for the user interface, or a change to the timer
//! that bounds a transcription.

use crate::protocol::{CommandView, ProtocolCommand};
use vstd::prelude::*;

verus! {

/// A one-way notification for the user interface.
#[derive(Debug, Clone, PartialEq, Eq)]
pub enum Notification {
    /// A recording began: show the capture indicator.
    RecordingStarted,
    /// The recording ended after this many milliseconds.
    RecordingStopped { duration_ms: u64 },
    /// The worker was asked for a transcript: show the transcribing indicator.
    TranscriptionStarted,
    /// The transcript arrived.
    TranscriptionDone { text: String, copied: bool, typed: bool },
    /// No transcript will arrive, for the given reason.
    TranscriptionFailed { error: String },
    /// The input level, as the bit pattern of an IEEE-754 binary64 number.
    AudioLevel { bits: u64 },
    /// The worker has loaded its model.
    ModelReady,
}

/// The mathematical content of a [`Notification`].
pub enum NotificationView {
    RecordingStarted,
    RecordingStopped { duration_ms: u64 },
    TranscriptionStarted,
    TranscriptionDone { text: Seq<char>, copied: bool, typed: bool },
    TranscriptionFailed { error: Seq<char> },
    AudioLevel { bits: u64 },
    ModelReady,
}

impl View for Notification {
    type V = NotificationView;

    open spec fn view(&self) -> NotificationView {
        match self {
            Notification::RecordingStarted => NotificationView::RecordingStarted,
            Notification::RecordingStopped { duration_ms } => NotificationView::RecordingStopped {
                duration_ms: *duration_ms,
            },
            Notification::TranscriptionStarted => NotificationView::TranscriptionStarted,
            Notification::TranscriptionDone {
                text,
                copied,
                typed,
            } => NotificationView::TranscriptionDone {
                text: text@,
                copied: *copied,
                typed: *typed,
            },
            Notification::TranscriptionFailed { error } => NotificationView::TranscriptionFailed {
                error: error@,
            },
            Notification::AudioLevel { bits } => NotificationView::AudioLevel { bits: *bits },
            Notification::ModelReady => NotificationView::ModelReady,
        }
    }
}

impl DeepView for Notification {
    type V = NotificationView;

    open spec fn deep_view(&self) -> NotificationView {
        self@
    }
}

impl NotificationView {
    /// The name under which the user interface listens for the notification.
    /// A transcript and a failure share one name and differ in their payload.
    pub open spec fn event_name(self) -> Seq<char> {
        match self {
            NotificationView::RecordingStarted => "recording_started"@,
            NotificationView::RecordingStopped { .. } => "recording_stopped"@,
            NotificationView::TranscriptionStarted => "transcription_started"@,
            NotificationView::TranscriptionDone { .. } => "transcription_done"@,
            NotificationView::TranscriptionFailed { .. } => "transcription_done"@,
            NotificationView::AudioLevel { .. } => "audio_level"@,
            NotificationView::ModelReady => "model_ready"@,
        }
    }
}

impl Notification {
    /// The name under which the user interface listens for the notification.
    pub fn event_name(&self) -> (name: &'static str)
        ensures
            name@ == self@.event_name(),
    {
        match self {
            Notification::RecordingStarted => "recording_started",
            Notification::RecordingStopped { .. } => "recording_stopped",
            Notification::TranscriptionStarted => "transcription_started",
            Notification::TranscriptionDone { .. } => "transcription_done",
            Notification::TranscriptionFailed { .. } => "transcription_done",
            Notification::AudioLevel { .. } => "audio_level",
            Notification::ModelReady => "model_ready",
        }
    }
}

/// One thing to do after a transition, in the order given.
#[derive(Debug, Clone, PartialEq, Eq)]
pub enum Action {
    /// Write the command's line to the worker's input and flush it.
    Send(ProtocolCommand),
    /// Tell the user interface.
    Notify(Notification),
    /// Report a timeout to the session once the clock reaches `deadline`.
    ArmTimeout { deadline: u64 },
    /// Drop the armed timeout: the transcription has ended.
    CancelTimeout,
}

/// The mathematical content of an [`Action`].
pub enum ActionView {
    Send(CommandView),
    Notify(NotificationView),
    ArmTimeout { deadline: u64 },
    CancelTimeout,
}

impl View for Action {
    type V = ActionView;

    open spec fn view(&self) -> ActionView {
        match self {
            Action::Send(command) => ActionView::Send(command@),
            Action::Notify(notification) => ActionView::Notify(notification@),
            Action::ArmTimeout { deadline } => ActionView::ArmTimeout { deadline: *deadline },
            Action::CancelTimeout => ActionView::CancelTimeout,
        }
    }
}

impl DeepView for Action {
    type V = ActionView;

    open spec fn deep_view(&self) -> ActionView {
        self@
    }
}

} // verus!
