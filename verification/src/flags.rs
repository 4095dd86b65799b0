//! Status and option flag words for hardware scans.
//!
//! The hardware reports scan status as a small word of independent bits and
//! takes scan options the same way.  Both are modelled here as structs of
//! named booleans, with exact conversions to and from the numeric words the
//! hardware uses.

use vstd::prelude::*;

verus! {

/// Bit value of the hardware-overrun status flag.
pub const STATUS_HW_OVERRUN: u16 = 0x0001;

/// Bit value of the buffer-overrun status flag.
pub const STATUS_BUFFER_OVERRUN: u16 = 0x0002;

/// Bit value of the triggered status flag.
pub const STATUS_TRIGGERED: u16 = 0x0004;

/// Bit value of the running status flag.
pub const STATUS_RUNNING: u16 = 0x0008;

/// A snapshot of the status flags returned by one scan poll.
///
/// Each field is one independent flag; the snapshot carries no history.
#[derive(Copy, Clone, Debug, PartialEq, Eq, Structural)]
pub struct ScanStatus {
    /// The device produced samples faster than it could drain them
    /// internally; unrecoverable for the current session.
    pub hardware_overrun: bool,
    /// The internal ring buffer was not drained by software in time;
    /// unrecoverable for the current session.
    pub buffer_overrun: bool,
    /// The trigger condition was satisfied (informational).
    pub triggered: bool,
    /// The scan session is still active.
    pub running: bool,
}

/// The numeric word that a status snapshot stands for.
pub open spec fn status_bits(s: ScanStatus) -> int {
    (if s.hardware_overrun { STATUS_HW_OVERRUN as int } else { 0 })
        + (if s.buffer_overrun { STATUS_BUFFER_OVERRUN as int } else { 0 })
        + (if s.triggered { STATUS_TRIGGERED as int } else { 0 })
        + (if s.running { STATUS_RUNNING as int } else { 0 })
}

impl ScanStatus {
    /// A snapshot with every flag clear.
    pub fn empty() -> (s: ScanStatus)
        ensures
            s == (ScanStatus {
                hardware_overrun: false,
                buffer_overrun: false,
                triggered: false,
                running: false,
            }),
    {
        ScanStatus { hardware_overrun: false, buffer_overrun: false, triggered: false, running: false }
    }

    /// Reads a snapshot out of the numeric word the hardware reports.
    /// Fails exactly when the word holds a bit no flag is defined for.
    pub fn from_bits(bits: u16) -> (r: Option<ScanStatus>)
        ensures
            (bits & 0xfff0) == 0 <==> r is Some,
            r matches Some(s) ==> s == (ScanStatus {
                hardware_overrun: (bits & STATUS_HW_OVERRUN) != 0,
                buffer_overrun: (bits & STATUS_BUFFER_OVERRUN) != 0,
                triggered: (bits & STATUS_TRIGGERED) != 0,
                running: (bits & STATUS_RUNNING) != 0,
            }),
            r matches Some(s) ==> status_bits(s) == bits as int,
    {
        if (bits & 0xfff0) != 0 {
            None
        } else {
            let s = ScanStatus {
                hardware_overrun: (bits & STATUS_HW_OVERRUN) != 0,
                buffer_overrun: (bits & STATUS_BUFFER_OVERRUN) != 0,
                triggered: (bits & STATUS_TRIGGERED) != 0,
                running: (bits & STATUS_RUNNING) != 0,
            };
            proof {
                assert(bits as int
                    == (if (bits & 0x0001u16) != 0 { 1int } else { 0 })
                        + (if (bits & 0x0002u16) != 0 { 2int } else { 0 })
                        + (if (bits & 0x0004u16) != 0 { 4int } else { 0 })
                        + (if (bits & 0x0008u16) != 0 { 8int } else { 0 })) by (bit_vector)
                    requires
                        bits & 0xfff0 == 0,
                ;
            }
            Some(s)
        }
    }

    /// The numeric word this snapshot stands for.
    pub fn bits(&self) -> (b: u16)
        ensures
            b as int == status_bits(*self),
    {
        let mut b: u16 = 0;
        if self.hardware_overrun {
            b = b + STATUS_HW_OVERRUN;
        }
        if self.buffer_overrun {
            b = b + STATUS_BUFFER_OVERRUN;
        }
        if self.triggered {
            b = b + STATUS_TRIGGERED;
        }
        if self.running {
            b = b + STATUS_RUNNING;
        }
        b
    }
}

/// Bit value of the option that disables scaling to engineering units.
pub const OPTS_NOSCALEDATA: u32 = 0x0001;

/// Bit value of the option that disables calibration.
pub const OPTS_NOCALIBRATEDATA: u32 = 0x0002;

/// Bit value of the option that selects an external clock.
pub const OPTS_EXTCLOCK: u32 = 0x0004;

/// Bit value of the option that selects an external trigger.
pub const OPTS_EXTTRIGGER: u32 = 0x0008;

/// Bit value of the option that selects continuous acquisition.
pub const OPTS_CONTINUOUS: u32 = 0x0010;

/// The option word handed to the hardware when a scan starts,
/// as a set of named flags.
#[derive(Copy, Clone, Debug, PartialEq, Eq, Structural)]
pub struct ScanOptionFlags {
    /// Deliver raw codes instead of engineering units.
    pub no_scale_data: bool,
    /// Deliver uncalibrated data.
    pub no_calibrate_data: bool,
    /// Use an external clock.
    pub ext_clock: bool,
    /// Wait for an external trigger.
    pub ext_trigger: bool,
    /// Acquire continuously instead of for a fixed sample count.
    pub continuous: bool,
}

/// The numeric option word that a flag set stands for.
pub open spec fn option_bits(o: ScanOptionFlags) -> int {
    (if o.no_scale_data { OPTS_NOSCALEDATA as int } else { 0 })
        + (if o.no_calibrate_data { OPTS_NOCALIBRATEDATA as int } else { 0 })
        + (if o.ext_clock { OPTS_EXTCLOCK as int } else { 0 })
        + (if o.ext_trigger { OPTS_EXTTRIGGER as int } else { 0 })
        + (if o.continuous { OPTS_CONTINUOUS as int } else { 0 })
}

impl ScanOptionFlags {
    /// The default option word: every flag clear.
    pub fn default_flags() -> (o: ScanOptionFlags)
        ensures
            o == (ScanOptionFlags {
                no_scale_data: false,
                no_calibrate_data: false,
                ext_clock: false,
                ext_trigger: false,
                continuous: false,
            }),
    {
        ScanOptionFlags {
            no_scale_data: false,
            no_calibrate_data: false,
            ext_clock: false,
            ext_trigger: false,
            continuous: false,
        }
    }

    /// The numeric option word this flag set stands for.
    pub fn bits(&self) -> (b: u32)
        ensures
            b as int == option_bits(*self),
    {
        let mut b: u32 = 0;
        if self.no_scale_data {
            b = b + OPTS_NOSCALEDATA;
        }
        if self.no_calibrate_data {
            b = b + OPTS_NOCALIBRATEDATA;
        }
        if self.ext_clock {
            b = b + OPTS_EXTCLOCK;
        }
        if self.ext_trigger {
            b = b + OPTS_EXTTRIGGER;
        }
        if self.continuous {
            b = b + OPTS_CONTINUOUS;
        }
        b
    }
}

} // verus!
