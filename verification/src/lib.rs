//! Core of a gesture-triggered incremental backup tool.
//!
//! The library holds the verified decision logic: the two gesture
//! state machines that arm and confirm a backup, the single-flight
//! coordinator that arbitrates between the gesture path and the GUI
//! path, the exclusion-rule engine and tree walker, and the diff-copy
//! accounting with overflow-safe byte counters.  All filesystem,
//! clock, audio and window work stays outside, in the unverified
//! shell; it hands the library plain values and executes the plans
//! the library returns.

pub mod backup;
pub mod config;
pub mod dialog;
pub mod geometry;
pub mod rules;
pub mod walker;
pub mod text;
pub mod rectangle;
pub mod confirm;
pub mod stats;
pub mod coordinator;
