//! A batch log-forwarding sidecar core: host-delivered log entries are
//! filtered and repackaged as stream records, and each batch becomes at most
//! one bulk write against an append-only streaming store (Amazon Kinesis).
//!
//! The conversion and orchestration logic is verified; the host's extension
//! protocol and the network call itself live with the integration layer,
//! which hands batches in and store outcomes back as plain values.

use vstd::prelude::*;

pub mod convert;
pub mod forward;
pub mod store;

verus! {

/// The category tag of a host-delivered log entry: the host classifies each
/// record as function-execution output or as some other platform message.
pub enum LogCategory {
    Function,
    Other,
}

/// One host-delivered log record: a category tag and the raw message body.
pub struct LogEntry {
    pub category: LogCategory,
    pub payload: Vec<u8>,
}

} // verus!
