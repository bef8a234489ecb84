//! Session management for a hotkey-driven dictation front end.
//!
//! The user holds a key combination, a worker process captures and
//! transcribes speech, and the transcript reaches the active application.
//! This library is the part that decides: it owns the recording session,
//! speaks the worker's line protocol and chooses the worker's executable.
//! It performs no input or output itself. Its caller reads the clock, runs
//! the process, writes the lines and shows the notifications, and tells the
//! session what happened.
//!
//! - [`session`]: the session and its transitions.
//! - [`machine`]: the model of the session as a state machine.
//! - [`laws`]: what is proved of every session and of every line.
//! - [`protocol`]: commands and events, and their coding as lines of JSON.
//! - [`json`]: the model of JSON values and the calls into `serde_json`.
//! - [`actions`]: what a transition asks its caller to do.
//! - [`worker`]: where the worker's executable is looked for, and how a
//!   worker is stopped.
//! - [`probe`]: one-shot runs of the executable for devices and models.
//! - [`config`]: the settings and the records of the one-shot runs.
//! - [`overlay`]: the place of the capture indicator on the screen.

pub mod actions;
pub mod config;
pub mod json;
pub mod laws;
pub mod machine;
pub mod overlay;
pub mod probe;
pub mod protocol;
pub mod session;
pub mod worker;
