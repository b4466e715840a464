//! A verified core for a hotkey-driven, in-place text correction tool.
//!
//! A global hotkey triggers a pipeline that copies the current selection,
//! reads it from the clipboard, sends it to a remote correction service,
//! writes the corrected text back, and pastes it over the selection.
//! This crate holds the decision logic of that pipeline — platform key
//! selection, request construction, response interpretation, and the
//! per-run state machine with its ordering and failure-propagation
//! guarantees. The surrounding process performs the actual OS input
//! simulation, clipboard access, and network calls, feeding their plain
//! outcomes back into the state machine.

pub mod errors;
pub mod keys;
pub mod correction;
pub mod pipeline;
pub mod laws;
