//! Core of a MIDI/OSC control-surface mapping engine paired with a clip-slot
//! playback engine.
//!
//! The crate is organised around two subsystems:
//!
//! - the mapping/processing pipeline: sources that match incoming MIDI
//!   messages, modes that transform control values, targets that accept hits
//!   and report values, and the main/real-time processor pair that routes
//!   control and feedback between them;
//! - the clip engine: a matrix of columns and slots, each slot a state
//!   machine over recording and playback, fed by a pull-based supplier chain.
//!
//! Host-specific plumbing (audio device I/O, project access, UI) stays
//! outside; the types here work on plain values so that every rule can be
//! stated and checked.

pub mod clip;
pub mod column;
pub mod mapping;
pub mod midi;
pub mod mode;
pub mod model_data;
pub mod pot;
pub mod processor;
pub mod realtime;
pub mod rt_column;
pub mod session;
pub mod slot;
pub mod source;
pub mod supplier;
pub mod target_api;
pub mod targets;
pub mod ui_util;
pub mod units;
