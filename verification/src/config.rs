//! The settings of the dictation front end and the records that the worker's
//! one-shot queries report.

use vstd::prelude::*;

verus! {

/// Bit pattern of the default typing speed, 0.01 seconds per character, as
/// an IEEE-754 binary32 number.
pub const DEFAULT_TYPING_SPEED_BITS: u32 = 0x3c23_d70a;

/// Sample rate, in hertz, of a fresh configuration.
pub const DEFAULT_SAMPLE_RATE: i32 = 16000;

/// The last-saved settings. They are handed to the worker when it starts and
/// whenever a recording begins or ends.
#[derive(Debug, Clone, PartialEq, Eq)]
pub struct Config {
    /// Input device to record from; `None` lets the worker choose.
    pub device_id: Option<i32>,
    pub sample_rate: i32,
    /// Identifier of the transcription model.
    pub model: String,
    /// Whether the worker applies voice-activity detection.
    pub use_vad: bool,
    pub hotkey: String,
    /// How a transcript reaches the active application (`clipboard`, `type`, ...).
    pub output_mode: String,
    /// Seconds per typed character, as the bit pattern of a binary32 number.
    pub typing_speed_bits: u32,
    pub providers: Vec<String>,
}

/// The mathematical content of a [`Config`].
pub struct ConfigView {
    pub device_id: Option<i32>,
    pub sample_rate: i32,
    pub model: Seq<char>,
    pub use_vad: bool,
    pub hotkey: Seq<char>,
    pub output_mode: Seq<char>,
    pub typing_speed_bits: u32,
    pub providers: Seq<Seq<char>>,
}

impl View for Config {
    type V = ConfigView;

    open spec fn view(&self) -> ConfigView {
        ConfigView {
            device_id: self.device_id,
            sample_rate: self.sample_rate,
            model: self.model@,
            use_vad: self.use_vad,
            hotkey: self.hotkey@,
            output_mode: self.output_mode@,
            typing_speed_bits: self.typing_speed_bits,
            providers: self.providers.deep_view(),
        }
    }
}

/// The settings of an installation that has saved none yet.
pub open spec fn default_config() -> ConfigView {
    ConfigView {
        device_id: None,
        sample_rate: DEFAULT_SAMPLE_RATE,
        model: "nemo-parakeet-tdt-0.6b-v3"@,
        use_vad: false,
        hotkey: "alt+space"@,
        output_mode: "clipboard"@,
        typing_speed_bits: DEFAULT_TYPING_SPEED_BITS,
        providers: seq!["CPUExecutionProvider"@],
    }
}

impl Default for Config {
    fn default() -> (config: Config)
        ensures
            config@ == default_config(),
    {
        let mut providers: Vec<String> = Vec::new();
        providers.push("CPUExecutionProvider".to_string());
        let config = Config {
            device_id: None,
            sample_rate: DEFAULT_SAMPLE_RATE,
            model: "nemo-parakeet-tdt-0.6b-v3".to_string(),
            use_vad: false,
            hotkey: "alt+space".to_string(),
            output_mode: "clipboard".to_string(),
            typing_speed_bits: DEFAULT_TYPING_SPEED_BITS,
            providers,
        };
        assert(config.providers.deep_view() =~= seq!["CPUExecutionProvider"@]);
        config
    }
}

/// An audio input device, as the worker lists it.
#[derive(Debug, Clone, PartialEq, Eq)]
pub struct AudioDevice {
    pub id: i32,
    pub name: String,
    pub is_default: bool,
}

/// The mathematical content of an [`AudioDevice`].
pub struct AudioDeviceView {
    pub id: i32,
    pub name: Seq<char>,
    pub is_default: bool,
}

impl View for AudioDevice {
    type V = AudioDeviceView;

    open spec fn view(&self) -> AudioDeviceView {
        AudioDeviceView { id: self.id, name: self.name@, is_default: self.is_default }
    }
}

impl DeepView for AudioDevice {
    type V = AudioDeviceView;

    open spec fn deep_view(&self) -> AudioDeviceView {
        self@
    }
}

/// Whether a model is present on disk, as the worker reports it.
#[derive(Debug, Clone, PartialEq, Eq)]
pub struct ModelStatus {
    pub downloaded: bool,
    pub path: Option<String>,
    pub size: Option<String>,
    pub error: Option<String>,
}

/// The mathematical content of a [`ModelStatus`].
pub struct ModelStatusView {
    pub downloaded: bool,
    pub path: Option<Seq<char>>,
    pub size: Option<Seq<char>>,
    pub error: Option<Seq<char>>,
}

impl View for ModelStatus {
    type V = ModelStatusView;

    open spec fn view(&self) -> ModelStatusView {
        ModelStatusView {
            downloaded: self.downloaded,
            path: self.path.deep_view(),
            size: self.size.deep_view(),
            error: self.error.deep_view(),
        }
    }
}

impl DeepView for ModelStatus {
    type V = ModelStatusView;

    open spec fn deep_view(&self) -> ModelStatusView {
        self@
    }
}

/// The status of a model about which nothing could be learned, with the
/// reason.
pub open spec fn unknown_status(reason: Seq<char>) -> ModelStatusView {
    ModelStatusView { downloaded: false, path: None, size: None, error: Some(reason) }
}

impl ModelStatus {
    /// The status reported when no worker executable can be run.
    pub fn unavailable() -> (status: ModelStatus)
        ensures
            status@ == unknown_status("No sidecar or Python available"@),
    {
        ModelStatus {
            downloaded: false,
            path: None,
            size: None,
            error: Some("No sidecar or Python available".to_string()),
        }
    }

    /// The status reported when the worker ran but gave no usable answer.
    pub fn check_failed() -> (status: ModelStatus)
        ensures
            status@ == unknown_status("Failed to check model"@),
    {
        ModelStatus {
            downloaded: false,
            path: None,
            size: None,
            error: Some("Failed to check model".to_string()),
        }
    }
}

} // verus!
