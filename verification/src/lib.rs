//! A verified model of an HTTP request-processing pipeline: a chain of
//! cross-cutting stages — request identification, concurrency admission
//! control, deadline enforcement, error classification, trace recording and
//! graceful shutdown — composed in a fixed order around an application
//! handler.
//!
//! The pipeline's decisions are ordinary functions over plain values, with
//! contracts; the surrounding server (listening, awaiting handlers, signal
//! delivery) hands events in and carries actions out.

pub mod admission;
pub mod context;
pub mod deadline;
pub mod outcome;
pub mod pipeline;
pub mod record;
pub mod request_id;
pub mod shutdown;
pub mod trace;
