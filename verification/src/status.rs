//! Status codes of the native Cobra ABI.
//!
//! Every fallible native call returns one of these codes as a C integer.
//! The enumeration itself carries no discriminants; the correspondence with
//! the integers of the ABI is stated by [`spec_status_code`] and realised by
//! the conversion functions below.

use vstd::prelude::*;

verus! {

/// Status returned by every fallible call of the native Cobra library.
#[derive(Clone, Debug, PartialEq, Eq)]
#[allow(non_camel_case_types)]
pub enum PvStatus {
    SUCCESS,
    OUT_OF_MEMORY,
    IO_ERROR,
    INVALID_ARGUMENT,
    STOP_ITERATION,
    KEY_ERROR,
    INVALID_STATE,
    PV_STATUS_RUNTIME_ERROR,
    PV_STATUS_ACTIVATION_ERROR,
    PV_STATUS_ACTIVATION_LIMIT_REACHED,
    PV_STATUS_ACTIVATION_THROTTLED,
    PV_STATUS_ACTIVATION_REFUSED,
}

/// The integer that the native ABI uses for each status.
pub open spec fn spec_status_code(s: PvStatus) -> int {
    match s {
        PvStatus::SUCCESS => 0,
        PvStatus::OUT_OF_MEMORY => 1,
        PvStatus::IO_ERROR => 2,
        PvStatus::INVALID_ARGUMENT => 3,
        PvStatus::STOP_ITERATION => 4,
        PvStatus::KEY_ERROR => 5,
        PvStatus::INVALID_STATE => 6,
        PvStatus::PV_STATUS_RUNTIME_ERROR => 7,
        PvStatus::PV_STATUS_ACTIVATION_ERROR => 8,
        PvStatus::PV_STATUS_ACTIVATION_LIMIT_REACHED => 9,
        PvStatus::PV_STATUS_ACTIVATION_THROTTLED => 10,
        PvStatus::PV_STATUS_ACTIVATION_REFUSED => 11,
    }
}

/// The status a native call reported, read back from its C integer.
///
/// Codes outside the enumeration are rejected rather than mapped to some
/// default, so a protocol mismatch cannot masquerade as a known status.
pub fn pv_status_from_code(code: i32) -> (r: Option<PvStatus>)
    ensures
        r is Some <==> 0 <= code <= 11,
        r matches Some(s) ==> spec_status_code(s) == code,
{
    match code {
        0 => Some(PvStatus::SUCCESS),
        1 => Some(PvStatus::OUT_OF_MEMORY),
        2 => Some(PvStatus::IO_ERROR),
        3 => Some(PvStatus::INVALID_ARGUMENT),
        4 => Some(PvStatus::STOP_ITERATION),
        5 => Some(PvStatus::KEY_ERROR),
        6 => Some(PvStatus::INVALID_STATE),
        7 => Some(PvStatus::PV_STATUS_RUNTIME_ERROR),
        8 => Some(PvStatus::PV_STATUS_ACTIVATION_ERROR),
        9 => Some(PvStatus::PV_STATUS_ACTIVATION_LIMIT_REACHED),
        10 => Some(PvStatus::PV_STATUS_ACTIVATION_THROTTLED),
        11 => Some(PvStatus::PV_STATUS_ACTIVATION_REFUSED),
        _ => None,
    }
}

/// The C integer of a status, for diagnostics.
pub fn pv_status_code(s: &PvStatus) -> (code: i32)
    ensures
        code == spec_status_code(*s),
{
    match s {
        PvStatus::SUCCESS => 0,
        PvStatus::OUT_OF_MEMORY => 1,
        PvStatus::IO_ERROR => 2,
        PvStatus::INVALID_ARGUMENT => 3,
        PvStatus::STOP_ITERATION => 4,
        PvStatus::KEY_ERROR => 5,
        PvStatus::INVALID_STATE => 6,
        PvStatus::PV_STATUS_RUNTIME_ERROR => 7,
        PvStatus::PV_STATUS_ACTIVATION_ERROR => 8,
        PvStatus::PV_STATUS_ACTIVATION_LIMIT_REACHED => 9,
        PvStatus::PV_STATUS_ACTIVATION_THROTTLED => 10,
        PvStatus::PV_STATUS_ACTIVATION_REFUSED => 11,
    }
}

/// The name of a status, as the ABI header spells it.
pub open spec fn spec_status_name(s: PvStatus) -> Seq<char> {
    match s {
        PvStatus::SUCCESS => "SUCCESS"@,
        PvStatus::OUT_OF_MEMORY => "OUT_OF_MEMORY"@,
        PvStatus::IO_ERROR => "IO_ERROR"@,
        PvStatus::INVALID_ARGUMENT => "INVALID_ARGUMENT"@,
        PvStatus::STOP_ITERATION => "STOP_ITERATION"@,
        PvStatus::KEY_ERROR => "KEY_ERROR"@,
        PvStatus::INVALID_STATE => "INVALID_STATE"@,
        PvStatus::PV_STATUS_RUNTIME_ERROR => "PV_STATUS_RUNTIME_ERROR"@,
        PvStatus::PV_STATUS_ACTIVATION_ERROR => "PV_STATUS_ACTIVATION_ERROR"@,
        PvStatus::PV_STATUS_ACTIVATION_LIMIT_REACHED => "PV_STATUS_ACTIVATION_LIMIT_REACHED"@,
        PvStatus::PV_STATUS_ACTIVATION_THROTTLED => "PV_STATUS_ACTIVATION_THROTTLED"@,
        PvStatus::PV_STATUS_ACTIVATION_REFUSED => "PV_STATUS_ACTIVATION_REFUSED"@,
    }
}

/// The name of a status, for diagnostic messages.
pub fn pv_status_name(s: &PvStatus) -> (r: &'static str)
    ensures
        r@ == spec_status_name(*s),
{
    match s {
        PvStatus::SUCCESS => "SUCCESS",
        PvStatus::OUT_OF_MEMORY => "OUT_OF_MEMORY",
        PvStatus::IO_ERROR => "IO_ERROR",
        PvStatus::INVALID_ARGUMENT => "INVALID_ARGUMENT",
        PvStatus::STOP_ITERATION => "STOP_ITERATION",
        PvStatus::KEY_ERROR => "KEY_ERROR",
        PvStatus::INVALID_STATE => "INVALID_STATE",
        PvStatus::PV_STATUS_RUNTIME_ERROR => "PV_STATUS_RUNTIME_ERROR",
        PvStatus::PV_STATUS_ACTIVATION_ERROR => "PV_STATUS_ACTIVATION_ERROR",
        PvStatus::PV_STATUS_ACTIVATION_LIMIT_REACHED => "PV_STATUS_ACTIVATION_LIMIT_REACHED",
        PvStatus::PV_STATUS_ACTIVATION_THROTTLED => "PV_STATUS_ACTIVATION_THROTTLED",
        PvStatus::PV_STATUS_ACTIVATION_REFUSED => "PV_STATUS_ACTIVATION_REFUSED",
    }
}

} // verus!
