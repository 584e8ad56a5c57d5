//! Orchestration of speech transcription jobs: a model holder, a cancellation
//! token, a job controller that turns engine callbacks into an event stream,
//! and the decoding of audio containers into samples.
//!
//! The inference engine, the event transport and the file system stay with the
//! caller. The caller performs those steps and reports what happened to the
//! [`job::JobController`], which decides what is emitted and when a job ends.

pub mod audio;
pub mod error;
pub mod event;
pub mod job;
pub mod model;
pub mod options;
pub mod token;
pub mod trace;
