//! Interception and reporting of abnormal termination.
//!
//! The library holds the decisions of a protected execution: how a captured
//! source location is rendered, the one-shot relay that carries it from the
//! termination hook to the catch site, the classification of the termination
//! payload into a diagnostic, and the bookkeeping of the process-wide hook.
pub mod hook;
pub mod location;
pub mod relay;
pub mod report;

