//! Caller-side pipeline for typed remote calls over an addressed message bus:
//! building the wire envelope, assembling the outbound request, tracking
//! pending calls until they resolve, and classifying each outcome.

pub mod envelope;
pub mod outcome;
pub mod request;
pub mod pending;
