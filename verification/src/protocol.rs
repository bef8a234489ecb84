//! The line protocol spoken with the transcription worker: one JSON record
//! per line, commands going out and events coming in.

use crate::json::{
    as_flag, as_float_bits, as_text, empty_object, flag_of, integer, json_as_float, json_model,
    json_parse, json_text, member, member_of, null, parse, set_member, text, text_of, to_text,
    Json,
};
use vstd::prelude::*;

verus! {

/// A command for the worker.
#[derive(Debug, Clone, PartialEq, Eq)]
pub enum ProtocolCommand {
    /// Start capturing audio from the given device, or from the worker's
    /// default device.
    StartRecording { device_id: Option<i32> },
    /// Stop capturing, transcribe what was captured and deliver the text in
    /// the given way.
    StopAndTranscribe { output_mode: String },
    /// Load the model with this identifier.
    LoadModel { model_id: String },
}

/// The mathematical content of a [`ProtocolCommand`].
pub enum CommandView {
    StartRecording { device_id: Option<i32> },
    StopAndTranscribe { output_mode: Seq<char> },
    LoadModel { model_id: Seq<char> },
}

impl View for ProtocolCommand {
    type V = CommandView;

    open spec fn view(&self) -> CommandView {
        match self {
            ProtocolCommand::StartRecording { device_id } => CommandView::StartRecording {
                device_id: *device_id,
            },
            ProtocolCommand::StopAndTranscribe { output_mode } => CommandView::StopAndTranscribe {
                output_mode: output_mode@,
            },
            ProtocolCommand::LoadModel { model_id } => CommandView::LoadModel {
                model_id: model_id@,
            },
        }
    }
}

impl DeepView for ProtocolCommand {
    type V = CommandView;

    open spec fn deep_view(&self) -> CommandView {
        self@
    }
}

/// An event that the worker reports. Floats travel as IEEE-754 binary64 bit
/// patterns.
#[derive(Debug, Clone, PartialEq, Eq)]
pub enum ProtocolEvent {
    /// The current input level, between 0 and 1.
    AudioLevel { bits: u64 },
    /// The worker changed its status; `model_loaded` marks readiness.
    StatusChanged { name: String },
    /// A transcript, whether it was copied or typed, and the seconds that the
    /// transcription took.
    TranscriptionResult { text: String, copied: bool, typed: bool, elapsed_bits: u64 },
    /// The transcription failed.
    TranscriptionError { message: String },
}

/// The mathematical content of a [`ProtocolEvent`].
pub enum EventView {
    AudioLevel { bits: u64 },
    StatusChanged { name: Seq<char> },
    TranscriptionResult { text: Seq<char>, copied: bool, typed: bool, elapsed_bits: u64 },
    TranscriptionError { message: Seq<char> },
}

impl View for ProtocolEvent {
    type V = EventView;

    open spec fn view(&self) -> EventView {
        match self {
            ProtocolEvent::AudioLevel { bits } => EventView::AudioLevel { bits: *bits },
            ProtocolEvent::StatusChanged { name } => EventView::StatusChanged { name: name@ },
            ProtocolEvent::TranscriptionResult {
                text,
                copied,
                typed,
                elapsed_bits,
            } => EventView::TranscriptionResult {
                text: text@,
                copied: *copied,
                typed: *typed,
                elapsed_bits: *elapsed_bits,
            },
            ProtocolEvent::TranscriptionError { message } => EventView::TranscriptionError {
                message: message@,
            },
        }
    }
}

impl DeepView for ProtocolEvent {
    type V = EventView;

    open spec fn deep_view(&self) -> EventView {
        self@
    }
}

impl EventView {
    /// Whether the event ends a transcription: a result or an error.
    pub open spec fn is_terminal(self) -> bool {
        self is TranscriptionResult || self is TranscriptionError
    }
}

impl ProtocolEvent {
    /// Whether the event ends a transcription: a result or an error.
    pub fn is_terminal(&self) -> (terminal: bool)
        ensures
            terminal == self@.is_terminal(),
    {
        match self {
            ProtocolEvent::TranscriptionResult { .. } => true,
            ProtocolEvent::TranscriptionError { .. } => true,
            _ => false,
        }
    }
}

/// The `device` member of a start command: the device's number, or null for
/// the worker's default.
pub open spec fn device_json(device_id: Option<i32>) -> Json {
    match device_id {
        Some(d) => Json::Integer(d as int),
        None => Json::Null,
    }
}

/// The JSON object that stands for a command on the wire: its name under
/// `cmd` and its one argument under `device`, `output` or `model`.
pub open spec fn command_json(c: CommandView) -> Json {
    match c {
        CommandView::StartRecording { device_id } => Json::Object(
            map![
                "cmd"@ => Json::Text("start_recording"@),
                "device"@ => device_json(device_id),
            ],
        ),
        CommandView::StopAndTranscribe { output_mode } => Json::Object(
            map![
                "cmd"@ => Json::Text("stop_and_transcribe"@),
                "output"@ => Json::Text(output_mode),
            ],
        ),
        CommandView::LoadModel { model_id } => Json::Object(
            map![
                "cmd"@ => Json::Text("load_model"@),
                "model"@ => Json::Text(model_id),
            ],
        ),
    }
}

/// The line that carries a command: the text of its JSON object and a line
/// feed.
pub open spec fn wire_line(c: CommandView) -> Seq<char> {
    json_text(command_json(c)).push('\n')
}

/// A text that ends in a line feed and holds no other.
pub open spec fn is_single_line(line: Seq<char>) -> bool {
    &&& line.len() > 0
    &&& line.last() == '\n'
    &&& !line.drop_last().contains('\n')
}

/// Serialises a command as one line for the worker's input.
pub fn encode(command: &ProtocolCommand) -> (line: String)
    ensures
        line@ == wire_line(command@),
        is_single_line(line@),
{
    let mut object = empty_object();
    match command {
        ProtocolCommand::StartRecording { device_id } => {
            set_member(&mut object, "cmd", text("start_recording"));
            let device = match device_id {
                Some(d) => integer(*d),
                None => null(),
            };
            set_member(&mut object, "device", device);
        },
        ProtocolCommand::StopAndTranscribe { output_mode } => {
            set_member(&mut object, "cmd", text("stop_and_transcribe"));
            set_member(&mut object, "output", text(output_mode.as_str()));
        },
        ProtocolCommand::LoadModel { model_id } => {
            set_member(&mut object, "cmd", text("load_model"));
            set_member(&mut object, "model", text(model_id.as_str()));
        },
    }
    let record = to_text(&object);
    let line = record.concat("\n");
    proof {
        reveal_strlit("\n");
        assert("\n"@ =~= seq!['\n']);
        assert(line@ =~= record@.push('\n'));
        assert(line@.drop_last() =~= record@);
    }
    line
}

/// What the decoder reads from one parsed line of worker output: each
/// recognised member that is present with the expected type.
#[derive(Debug, Clone, PartialEq, Eq)]
pub struct LineFields {
    /// The number under `audio_level`.
    pub audio_level: Option<u64>,
    /// The string under `status`.
    pub status: Option<String>,
    /// The string under `text`.
    pub text: Option<String>,
    /// The boolean under `copied`.
    pub copied: Option<bool>,
    /// The boolean under `typed`.
    pub typed: Option<bool>,
    /// The number under `transcription_time`.
    pub transcription_time: Option<u64>,
    /// The string under `error`.
    pub error: Option<String>,
}

/// The mathematical content of a [`LineFields`].
pub struct FieldsView {
    pub audio_level: Option<u64>,
    pub status: Option<Seq<char>>,
    pub text: Option<Seq<char>>,
    pub copied: Option<bool>,
    pub typed: Option<bool>,
    pub transcription_time: Option<u64>,
    pub error: Option<Seq<char>>,
}

impl View for LineFields {
    type V = FieldsView;

    open spec fn view(&self) -> FieldsView {
        FieldsView {
            audio_level: self.audio_level,
            status: self.status.deep_view(),
            text: self.text.deep_view(),
            copied: self.copied,
            typed: self.typed,
            transcription_time: self.transcription_time,
            error: self.error.deep_view(),
        }
    }
}

/// The number under a key, as the bit pattern of its float reading.
pub open spec fn float_member(j: Json, key: Seq<char>) -> Option<u64> {
    match member_of(j, key) {
        Some(m) => json_as_float(m),
        None => None,
    }
}

/// The string under a key.
pub open spec fn text_member(j: Json, key: Seq<char>) -> Option<Seq<char>> {
    match member_of(j, key) {
        Some(m) => text_of(m),
        None => None,
    }
}

/// The boolean under a key.
pub open spec fn flag_member(j: Json, key: Seq<char>) -> Option<bool> {
    match member_of(j, key) {
        Some(m) => flag_of(m),
        None => None,
    }
}

/// The recognised members of a parsed line.
pub open spec fn fields_of(j: Json) -> FieldsView {
    FieldsView {
        audio_level: float_member(j, "audio_level"@),
        status: text_member(j, "status"@),
        text: text_member(j, "text"@),
        copied: flag_member(j, "copied"@),
        typed: flag_member(j, "typed"@),
        transcription_time: float_member(j, "transcription_time"@),
        error: text_member(j, "error"@),
    }
}

/// The transcript event that a line with a `text` member stands for. A
/// missing flag counts as false and a missing duration as zero.
pub open spec fn result_event(f: FieldsView) -> EventView
    recommends
        f.text is Some,
{
    EventView::TranscriptionResult {
        text: f.text->0,
        copied: match f.copied {
            Some(b) => b,
            None => false,
        },
        typed: match f.typed {
            Some(b) => b,
            None => false,
        },
        elapsed_bits: match f.transcription_time {
            Some(bits) => bits,
            None => 0,
        },
    }
}

/// The events that a line's members stand for, each present member on its
/// own, in the order audio level, status, transcript, error.
pub open spec fn events_of(f: FieldsView) -> Seq<EventView> {
    let level = match f.audio_level {
        Some(bits) => seq![EventView::AudioLevel { bits }],
        None => Seq::empty(),
    };
    let status = match f.status {
        Some(name) => seq![EventView::StatusChanged { name }],
        None => Seq::empty(),
    };
    let result = match f.text {
        Some(_) => seq![result_event(f)],
        None => Seq::empty(),
    };
    let error = match f.error {
        Some(message) => seq![EventView::TranscriptionError { message }],
        None => Seq::empty(),
    };
    level + status + result + error
}

/// The first of a sequence of events, if there is one.
pub open spec fn first_event(events: Seq<EventView>) -> Option<EventView> {
    if events.len() > 0 {
        Some(events[0])
    } else {
        None
    }
}

/// The events that a line of worker output stands for; none where the line
/// is no JSON.
pub open spec fn decoded_events(line: Seq<char>) -> Seq<EventView> {
    match json_parse(line) {
        Some(j) => events_of(fields_of(j)),
        None => Seq::empty(),
    }
}

fn float_field(v: &serde_json::Value, key: &str) -> (r: Option<u64>)
    ensures
        r == float_member(json_model(*v), key@),
{
    match member(v, key) {
        Some(m) => as_float_bits(m),
        None => None,
    }
}

fn text_field(v: &serde_json::Value, key: &str) -> (r: Option<String>)
    ensures
        r.deep_view() == text_member(json_model(*v), key@),
{
    match member(v, key) {
        Some(m) => match as_text(m) {
            Some(s) => Some(s.to_string()),
            None => None,
        },
        None => None,
    }
}

fn flag_field(v: &serde_json::Value, key: &str) -> (r: Option<bool>)
    ensures
        r == flag_member(json_model(*v), key@),
{
    match member(v, key) {
        Some(m) => as_flag(m),
        None => None,
    }
}

/// Looks up the recognised members of a parsed line.
pub fn read_fields(v: &serde_json::Value) -> (fields: LineFields)
    ensures
        fields@ == fields_of(json_model(*v)),
{
    LineFields {
        audio_level: float_field(v, "audio_level"),
        status: text_field(v, "status"),
        text: text_field(v, "text"),
        copied: flag_field(v, "copied"),
        typed: flag_field(v, "typed"),
        transcription_time: float_field(v, "transcription_time"),
        error: text_field(v, "error"),
    }
}

/// Turns the members of a line into events, each present member on its own.
pub fn decode_fields(fields: LineFields) -> (events: Vec<ProtocolEvent>)
    ensures
        events.deep_view() == events_of(fields@),
{
    let ghost f = fields@;
    let mut events: Vec<ProtocolEvent> = Vec::new();
    if let Some(bits) = fields.audio_level {
        events.push(ProtocolEvent::AudioLevel { bits });
    }
    if let Some(name) = fields.status {
        events.push(ProtocolEvent::StatusChanged { name });
    }
    if let Some(text) = fields.text {
        let copied = match fields.copied {
            Some(b) => b,
            None => false,
        };
        let typed = match fields.typed {
            Some(b) => b,
            None => false,
        };
        let elapsed_bits = match fields.transcription_time {
            Some(bits) => bits,
            None => 0,
        };
        events.push(ProtocolEvent::TranscriptionResult { text, copied, typed, elapsed_bits });
    }
    if let Some(message) = fields.error {
        events.push(ProtocolEvent::TranscriptionError { message });
    }
    assert(events.deep_view() =~= events_of(f));
    events
}

/// Decodes one line of worker output into all the events it stands for. A
/// line that is no JSON, or that has none of the recognised members, gives
/// none.
pub fn decode_all(line: &str) -> (events: Vec<ProtocolEvent>)
    ensures
        events.deep_view() == decoded_events(line@),
{
    match parse(line) {
        Some(v) => decode_fields(read_fields(&v)),
        None => {
            let events: Vec<ProtocolEvent> = Vec::new();
            assert(events.deep_view() =~= Seq::<EventView>::empty());
            events
        },
    }
}

/// Decodes one line of worker output into the event of its first recognised
/// member; `None` discards the line.
pub fn decode(line: &str) -> (event: Option<ProtocolEvent>)
    ensures
        event.deep_view() == first_event(decoded_events(line@)),
{
    let mut events = decode_all(line);
    if events.len() > 0 {
        let ghost before = events.deep_view();
        let first = events.remove(0);
        assert(first@ == before[0]);
        Some(first)
    } else {
        None
    }
}

} // verus!
