//! Verified core of a multi-channel analog-input streaming library for
//! MCC DAQ HAT devices.
//!
//! The crate models the continuous-scan orchestration: validating scan
//! options, classifying the status flags returned by each hardware poll,
//! driving the scan lifecycle state machine (idle, starting, running,
//! stopping), and fanning each acquired frame out to one delivery queue
//! per channel.  The hardware itself is reached only through the
//! `AInScanner` trait, which a concrete device binding implements.

pub mod acquire;
pub mod flags;
pub mod hat;
pub mod options;
pub mod scan;

pub use acquire::{
    deliver_frame, run_acquisition, start_scan, AInScanner, DeliverySink, ScanOutcome,
    ScriptedPoll, ScriptedScanner, VecSink,
};
pub use flags::{ScanOptionFlags, ScanStatus};
pub use hat::{result_c_to_rs, ErrorCode, HatId, HatInfo, TriggerMode};
pub use options::ScanOptions;
pub use scan::{classify_poll, ScanPhase, ScanSession, StopReason};
