//! Event ingestion for a status bar: the decisions behind the two background
//! loops that turn OS signals and the host's click stream into typed values.
//!
//! The library is free of I/O. A driver reads lines, waits for signals, decodes
//! JSON and sends on channels; after each of those it tells the library what
//! happened and is told what to do next.

pub mod button;
pub mod event;
pub mod fault;
pub mod frame;
pub mod listener;
pub mod relay;
