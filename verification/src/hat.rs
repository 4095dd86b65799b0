//! Board-level types shared by every DAQ HAT: result codes, board
//! identifiers, board descriptions and trigger modes.
//!
//! The hardware library reports results as C integer codes; `result_c_to_rs`
//! turns such a code into a `Result` over the `ErrorCode` enum.

use vstd::prelude::*;

verus! {

/// The errors a DAQ HAT call can report.
#[derive(Copy, Clone, Debug, PartialEq, Eq, Structural)]
pub enum ErrorCode {
    /// An incorrect parameter was passed (caller error, never retried).
    BadParameter,
    /// The device is busy; the caller may retry.
    Busy,
    /// A timeout occurred while accessing a resource.
    Timeout,
    /// A timeout occurred while obtaining a resource lock.
    LockTimeout,
    /// The device at the given address is not of the expected type.
    InvalidDevice,
    /// A needed resource was not available.
    ResourceUnavail,
    /// Could not communicate with the device.
    CommsFailure,
    /// An opaque hardware fault.
    Undefined,
}

/// The C result code that stands for each error.
pub open spec fn error_code_value(e: ErrorCode) -> int {
    match e {
        ErrorCode::BadParameter => -1,
        ErrorCode::Busy => -2,
        ErrorCode::Timeout => -3,
        ErrorCode::LockTimeout => -4,
        ErrorCode::InvalidDevice => -5,
        ErrorCode::ResourceUnavail => -6,
        ErrorCode::CommsFailure => -7,
        ErrorCode::Undefined => -10,
    }
}

/// Whether a C result code names one of the known errors.
pub open spec fn is_error_code(code: int) -> bool {
    exists|e: ErrorCode| error_code_value(e) == code
}

/// The error named by a known C result code.
pub open spec fn error_of_code(code: int) -> ErrorCode {
    choose|e: ErrorCode| error_code_value(e) == code
}

/// The diagnostic text for each error.
pub open spec fn message_spec(e: ErrorCode) -> Seq<char> {
    match e {
        ErrorCode::BadParameter => "An incorrect parameter was passed to the function."@,
        ErrorCode::Busy => "The device is busy."@,
        ErrorCode::Timeout => "There was a timeout accessing a resource."@,
        ErrorCode::LockTimeout => "There was a timeout while obtaining a resource lock."@,
        ErrorCode::InvalidDevice => "The device at the specified address is not the correct type."@,
        ErrorCode::ResourceUnavail => "A needed resource was not available."@,
        ErrorCode::CommsFailure => "Could not communicate with the device."@,
        ErrorCode::Undefined => "Undefined error."@,
    }
}

impl ErrorCode {
    /// The C result code this error stands for.
    pub fn code(&self) -> (c: i32)
        ensures
            c as int == error_code_value(*self),
    {
        match self {
            ErrorCode::BadParameter => -1,
            ErrorCode::Busy => -2,
            ErrorCode::Timeout => -3,
            ErrorCode::LockTimeout => -4,
            ErrorCode::InvalidDevice => -5,
            ErrorCode::ResourceUnavail => -6,
            ErrorCode::CommsFailure => -7,
            ErrorCode::Undefined => -10,
        }
    }

    /// The error named by a known C result code.
    pub fn from_code(code: i32) -> (e: ErrorCode)
        requires
            is_error_code(code as int),
        ensures
            e == error_of_code(code as int),
            error_code_value(e) == code as int,
    {
        let e = match code {
            -1 => ErrorCode::BadParameter,
            -2 => ErrorCode::Busy,
            -3 => ErrorCode::Timeout,
            -4 => ErrorCode::LockTimeout,
            -5 => ErrorCode::InvalidDevice,
            -6 => ErrorCode::ResourceUnavail,
            -7 => ErrorCode::CommsFailure,
            _ => ErrorCode::Undefined,
        };
        proof {
            let w = choose|w: ErrorCode| error_code_value(w) == code as int;
            assert(error_code_value(w) == code as int);
            assert(w == e);
        }
        e
    }

    /// A human-readable description of the error.
    pub fn message(&self) -> (m: &'static str)
        ensures
            m@ == message_spec(*self),
    {
        match self {
            ErrorCode::BadParameter => "An incorrect parameter was passed to the function.",
            ErrorCode::Busy => "The device is busy.",
            ErrorCode::Timeout => "There was a timeout accessing a resource.",
            ErrorCode::LockTimeout => "There was a timeout while obtaining a resource lock.",
            ErrorCode::InvalidDevice => "The device at the specified address is not the correct type.",
            ErrorCode::ResourceUnavail => "A needed resource was not available.",
            ErrorCode::CommsFailure => "Could not communicate with the device.",
            ErrorCode::Undefined => "Undefined error.",
        }
    }
}

/// Turns a C result code into a `Result`: `0` is success, a known error
/// code maps to its `ErrorCode`.
pub fn result_c_to_rs(code: i32) -> (r: Result<(), ErrorCode>)
    requires
        code == 0 || is_error_code(code as int),
    ensures
        code == 0 ==> r == Result::<(), ErrorCode>::Ok(()),
        code != 0 ==> r == Result::<(), ErrorCode>::Err(error_of_code(code as int)),
{
    if code == 0 {
        Ok(())
    } else {
        Err(ErrorCode::from_code(code))
    }
}

/// The kinds of DAQ HAT boards.
#[derive(Copy, Clone, Debug, PartialEq, Eq, Structural)]
pub enum HatId {
    ANY,
    Mcc118,
    Mcc118Bootloader,
    Mcc128,
    Mcc134,
    Mcc152,
    Mcc172,
}

/// The numeric board identifier each `HatId` stands for.
pub open spec fn hat_id_value(h: HatId) -> int {
    match h {
        HatId::ANY => 0,
        HatId::Mcc118 => 0x0142,
        HatId::Mcc118Bootloader => 0x8142,
        HatId::Mcc128 => 0x0146,
        HatId::Mcc134 => 0x0143,
        HatId::Mcc152 => 0x0144,
        HatId::Mcc172 => 0x0145,
    }
}

/// Whether a numeric identifier names a known board kind.
pub open spec fn is_hat_id(id: int) -> bool {
    exists|h: HatId| hat_id_value(h) == id
}

/// The board kind named by a known numeric identifier.
pub open spec fn hat_of_id(id: int) -> HatId {
    choose|h: HatId| hat_id_value(h) == id
}

impl HatId {
    /// The numeric identifier this board kind stands for.
    pub fn id(&self) -> (v: u16)
        ensures
            v as int == hat_id_value(*self),
    {
        match self {
            HatId::ANY => 0,
            HatId::Mcc118 => 0x0142,
            HatId::Mcc118Bootloader => 0x8142,
            HatId::Mcc128 => 0x0146,
            HatId::Mcc134 => 0x0143,
            HatId::Mcc152 => 0x0144,
            HatId::Mcc172 => 0x0145,
        }
    }

    /// The board kind named by a known numeric identifier.
    pub fn from_id(id: u16) -> (h: HatId)
        requires
            is_hat_id(id as int),
        ensures
            h == hat_of_id(id as int),
            hat_id_value(h) == id as int,
    {
        let h = match id {
            0 => HatId::ANY,
            0x0142 => HatId::Mcc118,
            0x8142 => HatId::Mcc118Bootloader,
            0x0146 => HatId::Mcc128,
            0x0143 => HatId::Mcc134,
            0x0144 => HatId::Mcc152,
            _ => HatId::Mcc172,
        };
        proof {
            let w = choose|w: HatId| hat_id_value(w) == id as int;
            assert(hat_id_value(w) == id as int);
            assert(w == h);
        }
        h
    }
}

/// Description of one board found on the bus.
#[derive(Clone, Debug)]
pub struct HatInfo {
    /// The board's bus address.
    pub address: u8,
    /// The kind of board.
    pub id: HatId,
    /// Hardware version.
    pub version: u16,
    /// Product name reported by the board.
    pub product_name: String,
}

/// Trigger conditions for an externally triggered scan.
#[derive(Copy, Clone, Debug, PartialEq, Eq, Structural)]
pub enum TriggerMode {
    RisingEdge,
    FallingEdge,
    ActiveHigh,
    ActiveLow,
}

/// The numeric mode each `TriggerMode` stands for.
pub open spec fn trigger_mode_value(m: TriggerMode) -> int {
    match m {
        TriggerMode::RisingEdge => 0,
        TriggerMode::FallingEdge => 1,
        TriggerMode::ActiveHigh => 2,
        TriggerMode::ActiveLow => 3,
    }
}

impl TriggerMode {
    /// The numeric mode this trigger condition stands for.
    pub fn code(&self) -> (v: u8)
        ensures
            v as int == trigger_mode_value(*self),
    {
        match self {
            TriggerMode::RisingEdge => 0,
            TriggerMode::FallingEdge => 1,
            TriggerMode::ActiveHigh => 2,
            TriggerMode::ActiveLow => 3,
        }
    }
}

} // verus!
