use superwhisper::config::{AudioDevice, Config, ModelStatus, DEFAULT_TYPING_SPEED_BITS};
use superwhisper::probe::{
    devices_from, download_event, download_result, probe_args, status_from, unavailable_message,
    DownloadEvent, Probe,
};

fn status(downloaded: bool, path: &str) -> ModelStatus {
    ModelStatus { downloaded, path: Some(path.to_string()), size: None, error: None }
}

#[test]
fn default_config_values() {
    let config = Config::default();
    assert_eq!(config.device_id, None);
    assert_eq!(config.sample_rate, 16000);
    assert_eq!(config.model, "nemo-parakeet-tdt-0.6b-v3");
    assert!(!config.use_vad);
    assert_eq!(config.hotkey, "alt+space");
    assert_eq!(config.output_mode, "clipboard");
    assert_eq!(config.typing_speed_bits, 0.01f32.to_bits());
    assert_eq!(DEFAULT_TYPING_SPEED_BITS, 0.01f32.to_bits());
    assert_eq!(config.providers, vec!["CPUExecutionProvider".to_string()]);
}

#[test]
fn probe_args_for_listing_devices() {
    let base = vec!["/work/python/backend_daemon.py".to_string()];
    assert_eq!(
        probe_args(&base, &Probe::ListDevices),
        vec!["/work/python/backend_daemon.py".to_string(), "--list-devices".to_string()]
    );
    assert_eq!(probe_args(&vec![], &Probe::ListDevices), vec!["--list-devices".to_string()]);
}

#[test]
fn probe_args_for_a_model() {
    let base = vec!["a".to_string(), "b".to_string()];
    assert_eq!(
        probe_args(&base, &Probe::CheckModel { model: "tiny".to_string() }),
        vec!["a".to_string(), "b".to_string(), "--check-model".to_string(), "tiny".to_string()]
    );
    assert_eq!(
        probe_args(&vec![], &Probe::DownloadModel { model: "tiny".to_string() }),
        vec!["--download-model".to_string(), "tiny".to_string()]
    );
}

#[test]
fn devices_of_a_run_that_succeeded() {
    let listed = vec![
        AudioDevice { id: 0, name: "Built-in".to_string(), is_default: true },
        AudioDevice { id: 3, name: "USB".to_string(), is_default: false },
    ];
    assert_eq!(devices_from(true, Some(listed.clone())), listed);
}

#[test]
fn devices_of_a_run_that_failed_or_printed_nothing() {
    let listed = vec![AudioDevice { id: 0, name: "Built-in".to_string(), is_default: true }];
    assert!(devices_from(false, Some(listed)).is_empty());
    assert!(devices_from(true, None).is_empty());
    assert!(devices_from(false, None).is_empty());
}

#[test]
fn status_is_the_first_line_that_parses() {
    let lines = vec![None, Some(status(true, "/models/a")), None, Some(status(false, "/models/b"))];
    assert_eq!(status_from(true, lines), status(true, "/models/a"));
    assert_eq!(status_from(true, vec![Some(status(false, "x"))]), status(false, "x"));
}

#[test]
fn status_of_a_run_that_failed_or_printed_none() {
    let failed = ModelStatus {
        downloaded: false,
        path: None,
        size: None,
        error: Some("Failed to check model".to_string()),
    };
    assert_eq!(status_from(false, vec![Some(status(true, "/models/a"))]), failed);
    assert_eq!(status_from(true, vec![None, None]), failed);
    assert_eq!(status_from(true, vec![]), failed);
    assert_eq!(ModelStatus::check_failed(), failed);
}

#[test]
fn status_without_an_executable() {
    assert_eq!(
        ModelStatus::unavailable(),
        ModelStatus {
            downloaded: false,
            path: None,
            size: None,
            error: Some("No sidecar or Python available".to_string()),
        }
    );
    assert_eq!(unavailable_message(), "No sidecar or Python available");
}

#[test]
fn download_outcomes() {
    assert_eq!(download_result(true, "ignored"), Ok(()));
    assert_eq!(
        download_result(false, "disk full"),
        Err("Download failed: disk full".to_string())
    );
    assert_eq!(download_result(false, ""), Err("Download failed: ".to_string()));
    assert_eq!(download_event(true), DownloadEvent::Done);
    assert_eq!(download_event(false), DownloadEvent::Failed);
}

#[test]
fn download_event_names() {
    assert_eq!(DownloadEvent::Started.event_name(), "model_download_started");
    assert_eq!(DownloadEvent::Done.event_name(), "model_download_done");
    assert_eq!(DownloadEvent::Failed.event_name(), "model_download_error");
}
