//! One-shot queries to the worker's executable: listing the audio devices,
//! checking whether a model is on disk, and downloading a model. This module
//! builds the arguments of such a run and judges what came back; the caller
//! runs the process and parses its output.

use crate::config::{unknown_status, AudioDevice, AudioDeviceView, ModelStatus, ModelStatusView};
use vstd::prelude::*;

verus! {

/// A one-shot query.
#[derive(Debug, Clone, PartialEq, Eq)]
pub enum Probe {
    /// List the audio input devices.
    ListDevices,
    /// Report whether the named model is on disk.
    CheckModel { model: String },
    /// Download the named model.
    DownloadModel { model: String },
}

/// The mathematical content of a [`Probe`].
pub enum ProbeView {
    ListDevices,
    CheckModel { model: Seq<char> },
    DownloadModel { model: Seq<char> },
}

impl View for Probe {
    type V = ProbeView;

    open spec fn view(&self) -> ProbeView {
        match self {
            Probe::ListDevices => ProbeView::ListDevices,
            Probe::CheckModel { model } => ProbeView::CheckModel { model: model@ },
            Probe::DownloadModel { model } => ProbeView::DownloadModel { model: model@ },
        }
    }
}

/// The arguments that a query adds to those of the executable: its flag,
/// and the model's name where it is about a model.
pub open spec fn probe_flags(probe: ProbeView) -> Seq<Seq<char>> {
    match probe {
        ProbeView::ListDevices => seq!["--list-devices"@],
        ProbeView::CheckModel { model } => seq!["--check-model"@, model],
        ProbeView::DownloadModel { model } => seq!["--download-model"@, model],
    }
}

/// The arguments of a query's run: those that the executable is always
/// started with, then those of the query.
pub fn probe_args(base: &Vec<String>, probe: &Probe) -> (args: Vec<String>)
    ensures
        args.deep_view() == base.deep_view() + probe_flags(probe@),
{
    let mut args: Vec<String> = Vec::new();
    let mut i: usize = 0;
    assert(args.deep_view() =~= base.deep_view().take(0));
    while i < base.len()
        invariant
            i <= base.len(),
            args.deep_view() == base.deep_view().take(i as int),
        decreases base.len() - i,
    {
        let ghost before = args.deep_view();
        args.push(base[i].clone());
        assert(args.deep_view() =~= before.push(base[i as int]@));
        assert(base.deep_view().take(i + 1) =~= before.push(base[i as int]@));
        i = i + 1;
    }
    assert(base.deep_view().take(i as int) =~= base.deep_view());
    let ghost copied = args.deep_view();
    match probe {
        Probe::ListDevices => {
            args.push("--list-devices".to_string());
        },
        Probe::CheckModel { model } => {
            args.push("--check-model".to_string());
            args.push(model.clone());
        },
        Probe::DownloadModel { model } => {
            args.push("--download-model".to_string());
            args.push(model.clone());
        },
    }
    assert(args.deep_view() =~= copied + probe_flags(probe@));
    args
}

/// The devices that a listing reports: those parsed from the output of a
/// run that succeeded, and none otherwise.
pub fn devices_from(succeeded: bool, parsed: Option<Vec<AudioDevice>>) -> (devices: Vec<
    AudioDevice,
>)
    ensures
        devices.deep_view() == (match parsed {
            Some(listed) if succeeded => listed.deep_view(),
            _ => Seq::<AudioDeviceView>::empty(),
        }),
{
    match parsed {
        Some(listed) if succeeded => listed,
        _ => {
            let devices: Vec<AudioDevice> = Vec::new();
            assert(devices.deep_view() =~= Seq::<AudioDeviceView>::empty());
            devices
        },
    }
}

/// The first status among the parsed lines of an output; `None` stands for a
/// line that is no status.
pub open spec fn first_status(lines: Seq<Option<ModelStatusView>>) -> Option<ModelStatusView>
    decreases lines.len(),
{
    if lines.len() == 0 {
        None
    } else if lines[0] is Some {
        lines[0]
    } else {
        first_status(lines.drop_first())
    }
}

/// The status that a check reports: the first status among the lines of a
/// run that succeeded, and a failure where the run failed or printed none.
pub open spec fn reported_status(
    succeeded: bool,
    lines: Seq<Option<ModelStatusView>>,
) -> ModelStatusView {
    match first_status(lines) {
        Some(status) if succeeded => status,
        _ => unknown_status("Failed to check model"@),
    }
}

/// Judges the output of a model check. `lines` holds, for each line of the
/// output in order, the status it parses to, if any.
pub fn status_from(succeeded: bool, lines: Vec<Option<ModelStatus>>) -> (status: ModelStatus)
    ensures
        status@ == reported_status(succeeded, lines.deep_view()),
{
    if !succeeded {
        return ModelStatus::check_failed();
    }
    let ghost all = lines.deep_view();
    let mut rest = lines;
    let mut i: usize = 0;
    assert(all.skip(0) =~= all);
    while i < rest.len()
        invariant
            succeeded,
            i <= rest.len(),
            all == lines.deep_view(),
            rest.deep_view() == all,
            first_status(all) == first_status(all.skip(i as int)),
        decreases rest.len() - i,
    {
        assert(all.skip(i as int)[0] == all[i as int]);
        assert(all[i as int] == rest@[i as int].deep_view());
        if rest[i].is_some() {
            let ghost at_i = rest@[i as int];
            let found = rest.remove(i);
            assert(found == at_i);
            let status = found.unwrap();
            assert(at_i.deep_view() == Some(status@));
            return status;
        }
        assert(all.skip(i as int).drop_first() =~= all.skip(i + 1));
        i = i + 1;
    }
    assert(all.skip(i as int).len() == 0);
    ModelStatus::check_failed()
}

/// The user-interface event that tells how a download goes.
#[derive(Debug, Clone, Copy, PartialEq, Eq, Structural)]
pub enum DownloadEvent {
    Started,
    Done,
    Failed,
}

impl DownloadEvent {
    /// The name under which the user interface listens for the event.
    pub open spec fn name_of(self) -> Seq<char> {
        match self {
            DownloadEvent::Started => "model_download_started"@,
            DownloadEvent::Done => "model_download_done"@,
            DownloadEvent::Failed => "model_download_error"@,
        }
    }

    /// The name under which the user interface listens for the event.
    pub fn event_name(&self) -> (name: &'static str)
        ensures
            name@ == self.name_of(),
    {
        match self {
            DownloadEvent::Started => "model_download_started",
            DownloadEvent::Done => "model_download_done",
            DownloadEvent::Failed => "model_download_error",
        }
    }
}

/// The reason given when no worker executable can be run.
pub fn unavailable_message() -> (message: String)
    ensures
        message@ == "No sidecar or Python available"@,
{
    "No sidecar or Python available".to_string()
}

/// Judges a download: success, or the failure with what the run wrote to its
/// error stream.
pub fn download_result(succeeded: bool, diagnostics: &str) -> (outcome: Result<(), String>)
    ensures
        match outcome {
            Ok(_) => succeeded,
            Err(message) => !succeeded && message@ == "Download failed: "@ + diagnostics@,
        },
{
    if succeeded {
        Ok(())
    } else {
        Err("Download failed: ".to_string().concat(diagnostics))
    }
}

/// The event that follows a download's outcome.
pub fn download_event(succeeded: bool) -> (event: DownloadEvent)
    ensures
        event == if succeeded {
            DownloadEvent::Done
        } else {
            DownloadEvent::Failed
        },
{
    if succeeded {
        DownloadEvent::Done
    } else {
        DownloadEvent::Failed
    }
}

} // verus!
