use vstd::prelude::*;

use crate::probe::{high_of, low_of, PROBE_REQUEST_WORD};

verus! {

/// One record written to the diagnostic channel. The channel is write-only;
/// a driver renders each record as a text line on the debug transport.
#[derive(Clone, Copy, Debug, PartialEq, Eq, Structural)]
pub enum LogEntry {
    /// The startup marker, written once before any hardware is touched.
    Sanity,
    /// The probe's request word and its byte split, written before the
    /// transfer is issued.
    ProbeSent { word: u16, high: u8, low: u8 },
    /// The probe's response word and its byte split, written once the
    /// transfer completed.
    ProbeReceived { word: u16, high: u8, low: u8 },
}

/// The record the probe writes for the word it sends.
pub open spec fn sent_entry() -> LogEntry {
    LogEntry::ProbeSent {
        word: PROBE_REQUEST_WORD,
        high: high_of(PROBE_REQUEST_WORD),
        low: low_of(PROBE_REQUEST_WORD),
    }
}

/// The record the probe writes for the word it received.
pub open spec fn received_entry(w: u16) -> LogEntry {
    LogEntry::ProbeReceived { word: w, high: high_of(w), low: low_of(w) }
}

} // verus!
