//! Coordination core of a screen-capture, text-recognition and translation
//! tool.
//!
//! The crate holds the logic that is worth getting right: the single-flight
//! capture guard, the bounded history ring, the decoding of the two external
//! engines' output, the installer state machine that provisions those
//! engines, the settings codec, and the pipeline orchestrator that sequences
//! one capture run from trigger to notification.  Host concerns (windows,
//! hotkeys, subprocesses, files, the clipboard) stay outside; they feed the
//! orchestrator plain events and perform the actions it hands back.

pub mod artifact;
pub mod capture;
pub mod engine;
pub mod guard;
pub mod history;
pub mod installer;
pub mod pipeline;
pub mod settings;
pub mod translator;
