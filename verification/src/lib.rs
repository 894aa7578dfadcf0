//! Live network traffic analyzer: capture control, frame dissection, and
//! bidirectional flow aggregation.
//!
//! The crate models a capture session: a [`control::ControlBlock`] state
//! machine drives a capture loop and a periodic flush task, dissected frames
//! become [`packet::Packet`] records, and a [`report::Report`] accumulates one
//! [`report::ReportLine`] per bidirectional conversation. Opening devices,
//! reading frames and writing report files are left to the embedding program;
//! everything that decides, classifies, merges and formats lives here.

pub mod control;
pub mod dissect;
pub mod errors;
pub mod packet;
pub mod parameters;
pub mod report;
pub mod table;
pub mod text;
