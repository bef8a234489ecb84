use superwhisper::actions::{Action, Notification};
use superwhisper::config::Config;
use superwhisper::machine::{Failure, SessionState};
use superwhisper::protocol::{ProtocolCommand, ProtocolEvent};
use superwhisper::session::{Session, Trigger, DEFAULT_CEILING_MS};

const SINK: u64 = 7;

fn idle_session() -> Session {
    Session::new(Config::default(), 60_000)
}

fn session_with_worker() -> Session {
    let mut session = idle_session();
    session.worker_started(SINK);
    session
}

fn transcript(text: &str) -> ProtocolEvent {
    ProtocolEvent::TranscriptionResult {
        text: text.to_string(),
        copied: true,
        typed: false,
        elapsed_bits: 0.8f64.to_bits(),
    }
}

fn commands(actions: &[Action]) -> Vec<ProtocolCommand> {
    let mut found = Vec::new();
    for action in actions {
        if let Action::Send(command) = action {
            found.push(command.clone());
        }
    }
    found
}

fn notifications(actions: &[Action]) -> Vec<Notification> {
    let mut found = Vec::new();
    for action in actions {
        if let Action::Notify(notification) = action {
            found.push(notification.clone());
        }
    }
    found
}

#[test]
fn new_session_is_idle_without_worker() {
    let session = Session::new(Config::default(), DEFAULT_CEILING_MS);
    assert_eq!(session.state(), SessionState::Idle);
    assert!(!session.is_recording());
    assert_eq!(session.started_at(), None);
    assert_eq!(session.deadline(), None);
    assert_eq!(session.worker_input(), None);
    assert!(!session.model_ready());
    assert_eq!(session.config(), &Config::default());
    assert_eq!(session.ceiling_ms(), 120_000);
}

#[test]
fn worker_start_keeps_the_sink_and_loads_the_model() {
    let mut session = idle_session();
    let actions = session.worker_started(SINK);
    assert_eq!(
        actions,
        vec![Action::Send(ProtocolCommand::LoadModel {
            model_id: "nemo-parakeet-tdt-0.6b-v3".to_string(),
        })]
    );
    assert_eq!(session.worker_input(), Some(SINK));
    assert_eq!(session.state(), SessionState::Idle);
    assert!(!session.model_ready());
}

#[test]
fn press_starts_recording() {
    let mut session = session_with_worker();
    let actions = session.begin(1_000);
    assert_eq!(
        actions,
        vec![
            Action::Send(ProtocolCommand::StartRecording { device_id: None }),
            Action::Notify(Notification::RecordingStarted),
        ]
    );
    assert_eq!(session.state(), SessionState::Recording);
    assert!(session.is_recording());
    assert_eq!(session.started_at(), Some(1_000));
}

#[test]
fn press_sends_the_configured_device() {
    let mut session = session_with_worker();
    let mut config = Config::default();
    config.device_id = Some(3);
    session.set_config(config);
    let actions = session.begin(0);
    assert_eq!(
        commands(&actions),
        vec![ProtocolCommand::StartRecording { device_id: Some(3) }]
    );
}

#[test]
fn press_without_worker_stays_idle() {
    let mut session = idle_session();
    assert!(session.begin(5).is_empty());
    assert_eq!(session.state(), SessionState::Idle);
    assert_eq!(session.started_at(), None);
}

#[test]
fn second_press_is_a_no_op() {
    let mut session = session_with_worker();
    let first = session.begin(10);
    let second = session.begin(20);
    let mut all = first;
    all.extend(second.clone());
    assert!(second.is_empty());
    assert_eq!(commands(&all), vec![ProtocolCommand::StartRecording { device_id: None }]);
    assert_eq!(session.state(), SessionState::Recording);
    assert_eq!(session.started_at(), Some(10));
}

#[test]
fn presses_around_worker_events_send_one_start() {
    let mut session = session_with_worker();
    let mut all = session.begin(10);
    all.extend(session.handle_line("{\"audio_level\":0.1}"));
    all.extend(session.handle_line("{\"status\":\"listening\"}"));
    all.extend(session.begin(30));
    assert_eq!(commands(&all), vec![ProtocolCommand::StartRecording { device_id: None }]);
}

#[test]
fn stray_release_changes_nothing() {
    let mut session = session_with_worker();
    assert!(session.end(50).is_empty());
    assert_eq!(session.state(), SessionState::Idle);
    assert_eq!(session.deadline(), None);
    assert_eq!(session.worker_input(), Some(SINK));
    let mut bare = idle_session();
    assert!(bare.end(50).is_empty());
    assert_eq!(bare.state(), SessionState::Idle);
}

#[test]
fn release_asks_for_the_transcript() {
    let mut session = session_with_worker();
    session.begin(1_000);
    let actions = session.end(3_500);
    assert_eq!(
        actions,
        vec![
            Action::Notify(Notification::RecordingStopped { duration_ms: 2_500 }),
            Action::Send(ProtocolCommand::StopAndTranscribe {
                output_mode: "clipboard".to_string(),
            }),
            Action::Notify(Notification::TranscriptionStarted),
            Action::ArmTimeout { deadline: 63_500 },
        ]
    );
    assert_eq!(session.state(), SessionState::Transcribing);
    assert!(!session.is_recording());
    assert_eq!(session.started_at(), None);
    assert_eq!(session.deadline(), Some(63_500));
}

#[test]
fn release_before_the_start_time_counts_no_duration() {
    let mut session = session_with_worker();
    session.begin(1_000);
    let actions = session.end(999);
    assert_eq!(actions[0], Action::Notify(Notification::RecordingStopped { duration_ms: 0 }));
}

#[test]
fn deadline_stops_at_the_end_of_the_clock() {
    let mut session = session_with_worker();
    session.begin(0);
    let actions = session.end(u64::MAX - 10);
    assert_eq!(actions[3], Action::ArmTimeout { deadline: u64::MAX });
    assert_eq!(session.deadline(), Some(u64::MAX));
    session.timeout(u64::MAX);
    assert_eq!(session.state(), SessionState::Idle);
}

#[test]
fn press_and_release_while_transcribing_are_ignored() {
    let mut session = session_with_worker();
    session.begin(0);
    session.end(10);
    assert!(session.begin(20).is_empty());
    assert!(session.end(30).is_empty());
    assert_eq!(session.state(), SessionState::Transcribing);
    assert_eq!(session.deadline(), Some(60_010));
}

#[test]
fn result_ends_the_transcription() {
    let mut session = session_with_worker();
    session.begin(0);
    session.end(10);
    let actions = session.handle_event(&transcript("ship it"));
    assert_eq!(
        actions,
        vec![
            Action::CancelTimeout,
            Action::Notify(Notification::TranscriptionDone {
                text: "ship it".to_string(),
                copied: true,
                typed: false,
            }),
        ]
    );
    assert_eq!(session.state(), SessionState::Idle);
    assert_eq!(session.deadline(), None);
}

#[test]
fn error_ends_the_transcription() {
    let mut session = session_with_worker();
    session.begin(0);
    session.end(10);
    let actions =
        session.handle_event(&ProtocolEvent::TranscriptionError { message: "no speech".to_string() });
    assert_eq!(
        actions,
        vec![
            Action::CancelTimeout,
            Action::Notify(Notification::TranscriptionFailed { error: "no speech".to_string() }),
        ]
    );
    assert_eq!(session.state(), SessionState::Idle);
}

#[test]
fn result_outside_a_transcription_is_only_passed_on() {
    let mut session = session_with_worker();
    let actions = session.handle_event(&transcript("late"));
    assert_eq!(
        actions,
        vec![Action::Notify(Notification::TranscriptionDone {
            text: "late".to_string(),
            copied: true,
            typed: false,
        })]
    );
    assert_eq!(session.state(), SessionState::Idle);
    session.begin(5);
    let actions = session.handle_event(&transcript("stale"));
    assert_eq!(actions.len(), 1);
    assert_eq!(session.state(), SessionState::Recording);
    assert_eq!(session.started_at(), Some(5));
}

#[test]
fn audio_level_is_passed_on() {
    let mut session = session_with_worker();
    session.begin(0);
    let actions = session.handle_event(&ProtocolEvent::AudioLevel { bits: 0.4f64.to_bits() });
    assert_eq!(actions, vec![Action::Notify(Notification::AudioLevel { bits: 0.4f64.to_bits() })]);
    assert_eq!(session.state(), SessionState::Recording);
}

#[test]
fn model_loaded_marks_readiness() {
    let mut session = session_with_worker();
    let actions =
        session.handle_event(&ProtocolEvent::StatusChanged { name: "model_loaded".to_string() });
    assert_eq!(actions, vec![Action::Notify(Notification::ModelReady)]);
    assert!(session.model_ready());
}

#[test]
fn other_status_is_ignored() {
    let mut session = session_with_worker();
    let actions =
        session.handle_event(&ProtocolEvent::StatusChanged { name: "loading".to_string() });
    assert!(actions.is_empty());
    assert!(!session.model_ready());
}

#[test]
fn worker_loss_clears_the_sink() {
    let mut session = session_with_worker();
    session.handle_line("{\"status\":\"model_loaded\"}");
    let actions = session.worker_lost();
    assert!(actions.is_empty());
    assert_eq!(session.worker_input(), None);
    assert!(!session.model_ready());
    assert_eq!(session.state(), SessionState::Idle);
    let after = session.begin(100);
    assert!(after.is_empty());
    assert!(commands(&after).is_empty());
    assert_eq!(session.state(), SessionState::Idle);
}

#[test]
fn worker_loss_while_recording_reports_an_error() {
    let mut session = session_with_worker();
    session.begin(0);
    let actions = session.worker_lost();
    assert_eq!(
        actions,
        vec![Action::Notify(Notification::TranscriptionFailed {
            error: "Transcription worker stopped".to_string(),
        })]
    );
    assert_eq!(session.state(), SessionState::Idle);
    assert_eq!(session.started_at(), None);
    assert_eq!(session.worker_input(), None);
}

#[test]
fn worker_loss_while_transcribing_cancels_the_timeout() {
    let mut session = session_with_worker();
    session.begin(0);
    session.end(10);
    let actions = session.worker_lost();
    assert_eq!(
        actions,
        vec![
            Action::CancelTimeout,
            Action::Notify(Notification::TranscriptionFailed {
                error: "Transcription worker stopped".to_string(),
            }),
        ]
    );
    assert_eq!(session.state(), SessionState::Idle);
    assert_eq!(session.deadline(), None);
    assert_eq!(session.worker_input(), None);
}

#[test]
fn failed_write_counts_as_worker_loss() {
    let mut session = session_with_worker();
    session.begin(0);
    session.end(10);
    let actions = session.handle_failure(Failure::Write);
    assert_eq!(
        actions,
        vec![
            Action::CancelTimeout,
            Action::Notify(Notification::TranscriptionFailed {
                error: "Transcription worker stopped".to_string(),
            }),
        ]
    );
    assert_eq!(session.state(), SessionState::Idle);
    assert_eq!(session.worker_input(), None);
    assert!(session.begin(20).is_empty());
}

#[test]
fn worker_exit_counts_as_worker_loss() {
    let mut session = session_with_worker();
    assert!(session.handle_failure(Failure::WorkerExit).is_empty());
    assert_eq!(session.worker_input(), None);
    assert_eq!(session.state(), SessionState::Idle);
}

#[test]
fn failed_spawn_and_failed_decode_change_nothing() {
    let mut session = idle_session();
    assert!(session.handle_failure(Failure::Spawn).is_empty());
    assert_eq!(session.state(), SessionState::Idle);
    assert_eq!(session.worker_input(), None);
    session.worker_started(SINK);
    session.begin(3);
    assert!(session.handle_failure(Failure::Decode).is_empty());
    assert!(session.handle_failure(Failure::Spawn).is_empty());
    assert_eq!(session.state(), SessionState::Recording);
    assert_eq!(session.started_at(), Some(3));
    assert_eq!(session.worker_input(), Some(SINK));
}

#[test]
fn presses_after_a_lost_worker_send_nothing() {
    let mut session = session_with_worker();
    let mut all = session.begin(1);
    all.extend(session.worker_lost());
    all.extend(session.begin(2));
    all.extend(session.handle_line("{\"text\":\"late\"}"));
    all.extend(session.begin(3));
    assert_eq!(commands(&all), vec![ProtocolCommand::StartRecording { device_id: None }]);
    assert_eq!(session.state(), SessionState::Idle);
}

#[test]
fn wait_goes_on_until_the_deadline_whatever_else_happens() {
    let mut session = Session::new(Config::default(), 1_000);
    session.worker_started(SINK);
    session.begin(0);
    session.end(500);
    session.begin(600);
    session.end(700);
    session.handle_line("{\"audio_level\":0.9}");
    session.handle_line("{\"status\":\"transcribing\"}");
    session.set_config(Config::default());
    assert_eq!(session.state(), SessionState::Transcribing);
    assert_eq!(session.deadline(), Some(1_500));
    assert_eq!(session.timeout(1_500).len(), 1);
    assert_eq!(session.state(), SessionState::Idle);
}

#[test]
fn timeout_forces_idle_at_the_deadline() {
    let mut session = Session::new(Config::default(), 5_000);
    session.worker_started(SINK);
    session.begin(100);
    session.end(200);
    assert_eq!(session.deadline(), Some(5_200));
    assert!(session.timeout(5_199).is_empty());
    assert_eq!(session.state(), SessionState::Transcribing);
    let actions = session.timeout(5_200);
    assert_eq!(
        actions,
        vec![Action::Notify(Notification::TranscriptionFailed {
            error: "Transcription timed out".to_string(),
        })]
    );
    assert_eq!(session.state(), SessionState::Idle);
    assert_eq!(session.deadline(), None);
    assert_eq!(session.worker_input(), Some(SINK));
}

#[test]
fn timeout_outside_a_transcription_is_ignored() {
    let mut session = session_with_worker();
    assert!(session.timeout(u64::MAX).is_empty());
    session.begin(0);
    assert!(session.timeout(u64::MAX).is_empty());
    assert_eq!(session.state(), SessionState::Recording);
}

#[test]
fn timeout_after_the_result_is_ignored() {
    let mut session = session_with_worker();
    session.begin(0);
    session.end(10);
    session.handle_event(&transcript("done"));
    assert!(session.timeout(1_000_000).is_empty());
    assert_eq!(session.state(), SessionState::Idle);
}

#[test]
fn saved_settings_apply_to_the_next_command() {
    let mut session = session_with_worker();
    session.begin(0);
    let mut config = Config::default();
    config.output_mode = "type".to_string();
    config.model = "other".to_string();
    session.set_config(config.clone());
    assert_eq!(session.config(), &config);
    let actions = session.end(10);
    assert_eq!(
        commands(&actions),
        vec![ProtocolCommand::StopAndTranscribe { output_mode: "type".to_string() }]
    );
    let restarted = session.worker_started(8);
    assert_eq!(
        restarted,
        vec![Action::Send(ProtocolCommand::LoadModel { model_id: "other".to_string() })]
    );
    assert_eq!(session.worker_input(), Some(8));
}

#[test]
fn line_with_several_members_is_handled_member_by_member() {
    let mut session = session_with_worker();
    session.begin(0);
    session.end(10);
    let actions = session
        .handle_line("{\"audio_level\":0.25,\"status\":\"model_loaded\",\"error\":\"boom\"}");
    assert_eq!(
        actions,
        vec![
            Action::Notify(Notification::AudioLevel { bits: 0.25f64.to_bits() }),
            Action::Notify(Notification::ModelReady),
            Action::CancelTimeout,
            Action::Notify(Notification::TranscriptionFailed { error: "boom".to_string() }),
        ]
    );
    assert_eq!(session.state(), SessionState::Idle);
    assert!(session.model_ready());
}

#[test]
fn line_that_is_no_event_changes_nothing() {
    let mut session = session_with_worker();
    session.begin(0);
    assert!(session.handle_line("INFO loading model").is_empty());
    assert!(session.handle_line("{\"unknown\":1}").is_empty());
    assert_eq!(session.state(), SessionState::Recording);
}

#[test]
fn handle_events_of_none_changes_nothing() {
    let mut session = session_with_worker();
    assert!(session.handle_events(&Vec::new()).is_empty());
    assert_eq!(session.state(), SessionState::Idle);
}

#[test]
fn step_dispatches_every_trigger() {
    let mut session = idle_session();
    let mut config = Config::default();
    config.device_id = Some(2);
    assert!(session.step(Trigger::ConfigSaved(config)).is_empty());
    assert_eq!(session.step(Trigger::WorkerStarted { sink: 1 }).len(), 1);
    assert_eq!(
        session.step(Trigger::Press { now: 0 }),
        vec![
            Action::Send(ProtocolCommand::StartRecording { device_id: Some(2) }),
            Action::Notify(Notification::RecordingStarted),
        ]
    );
    assert_eq!(session.step(Trigger::Release { now: 40 }).len(), 4);
    assert!(session.step(Trigger::Timeout { now: 41 }).is_empty());
    assert_eq!(session.step(Trigger::Event(transcript("x"))).len(), 2);
    assert_eq!(session.state(), SessionState::Idle);
    assert!(session.step(Trigger::WorkerLost).is_empty());
    assert_eq!(session.worker_input(), None);
}

#[test]
fn states_follow_the_transition_table() {
    let mut session = session_with_worker();
    let mut seen = vec![session.state()];
    let triggers = vec![
        Trigger::Release { now: 1 },
        Trigger::Press { now: 2 },
        Trigger::Press { now: 3 },
        Trigger::Release { now: 4 },
        Trigger::Release { now: 5 },
        Trigger::Press { now: 6 },
        Trigger::Event(transcript("one")),
        Trigger::Press { now: 7 },
        Trigger::Release { now: 8 },
        Trigger::Event(ProtocolEvent::TranscriptionError { message: "two".to_string() }),
    ];
    for trigger in triggers {
        session.step(trigger);
        seen.push(session.state());
    }
    assert_eq!(
        seen,
        vec![
            SessionState::Idle,
            SessionState::Idle,
            SessionState::Recording,
            SessionState::Recording,
            SessionState::Transcribing,
            SessionState::Transcribing,
            SessionState::Transcribing,
            SessionState::Idle,
            SessionState::Recording,
            SessionState::Transcribing,
            SessionState::Idle,
        ]
    );
}

#[test]
fn dictation_scenario() {
    let mut session = session_with_worker();
    let mut seen = Vec::new();
    seen.extend(notifications(&session.begin(10_000)));
    for _ in 0..3 {
        seen.extend(notifications(&session.handle_line("{\"audio_level\":0.4}")));
    }
    seen.extend(notifications(&session.end(12_300)));
    seen.extend(notifications(&session.handle_line(
        "{\"text\":\"ship it\",\"copied\":true,\"typed\":false,\"transcription_time\":0.8}",
    )));
    let level = Notification::AudioLevel { bits: 0.4f64.to_bits() };
    assert_eq!(
        seen,
        vec![
            Notification::RecordingStarted,
            level.clone(),
            level.clone(),
            level,
            Notification::RecordingStopped { duration_ms: 2_300 },
            Notification::TranscriptionStarted,
            Notification::TranscriptionDone {
                text: "ship it".to_string(),
                copied: true,
                typed: false,
            },
        ]
    );
    assert_eq!(session.state(), SessionState::Idle);
}

#[test]
fn notification_names() {
    assert_eq!(Notification::RecordingStarted.event_name(), "recording_started");
    assert_eq!(
        Notification::RecordingStopped { duration_ms: 1 }.event_name(),
        "recording_stopped"
    );
    assert_eq!(Notification::TranscriptionStarted.event_name(), "transcription_started");
    assert_eq!(
        Notification::TranscriptionDone { text: String::new(), copied: false, typed: false }
            .event_name(),
        "transcription_done"
    );
    assert_eq!(
        Notification::TranscriptionFailed { error: String::new() }.event_name(),
        "transcription_done"
    );
    assert_eq!(Notification::AudioLevel { bits: 0 }.event_name(), "audio_level");
    assert_eq!(Notification::ModelReady.event_name(), "model_ready");
}
