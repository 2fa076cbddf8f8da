//! Telemetry reader for a shared-memory "consciousness" segment.
//!
//! An external producer writes fixed-size binary records into a ring of
//! slots behind a 64-byte header. This crate decodes those records,
//! tracks how fast new ticks arrive, and derives coarse mood and zone
//! classifications from the decoded fields.
//!
//! The producer stores its scalar fields as IEEE 754 single-precision
//! bit patterns. Verified code here never touches floating point:
//! every scalar is converted, by exact integer arithmetic, into a
//! fixed-point value measured in micro-units (one millionth of the
//! original unit), and all derivation rules are stated and proved over
//! that fixed-point model.

pub mod bridge;
pub mod codec;
pub mod control;
pub mod errors;
pub mod etime;
pub mod fixed;
pub mod history;
pub mod reader;
pub mod rebloom;
pub mod segment;
pub mod tick_monitor;

