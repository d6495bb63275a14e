//! The closed set of battery states and its protocol parser.

use vstd::prelude::*;

use crate::error::BatteryError;

verus! {

/// Battery state of one device (or one half of a two-sided device).
#[derive(Clone, Copy, Debug, PartialEq, Eq, Structural)]
pub enum BatteryStatus {
    Charging,
    Charged,
    Discharging,
    Unknown,
}

/// The status a numeric protocol code denotes: `"0"` is discharging,
/// `"1"` charging, `"2"` charged, `"3"` and `"4"` unknown; anything
/// else is not a status code.
pub open spec fn spec_status_of_code(s: Seq<char>) -> Option<BatteryStatus> {
    if s.len() != 1 {
        None
    } else if s[0] == '0' {
        Some(BatteryStatus::Discharging)
    } else if s[0] == '1' {
        Some(BatteryStatus::Charging)
    } else if s[0] == '2' {
        Some(BatteryStatus::Charged)
    } else if s[0] == '3' || s[0] == '4' {
        Some(BatteryStatus::Unknown)
    } else {
        None
    }
}

/// The canonical display name of a status.
pub open spec fn spec_status_name(s: BatteryStatus) -> Seq<char> {
    match s {
        BatteryStatus::Charging => "Charging"@,
        BatteryStatus::Charged => "Charged"@,
        BatteryStatus::Discharging => "Discharging"@,
        BatteryStatus::Unknown => "Unknown"@,
    }
}

impl BatteryStatus {
    /// Parses a numeric status code as sent by the serial protocol.
    pub fn from_str(s: &str) -> (r: Result<BatteryStatus, BatteryError>)
        ensures
            spec_status_of_code(s@) matches Some(st) ==> (r matches Ok(got) && got == st),
            spec_status_of_code(s@) is None ==> (r matches Err(e) && e matches
                BatteryError::UnknownStatusCode(v) && v@ == s@),
    {
        if s.unicode_len() == 1 {
            let c = s.get_char(0);
            if c == '0' {
                return Ok(BatteryStatus::Discharging);
            }
            if c == '1' {
                return Ok(BatteryStatus::Charging);
            }
            if c == '2' {
                return Ok(BatteryStatus::Charged);
            }
            if c == '3' || c == '4' {
                return Ok(BatteryStatus::Unknown);
            }
        }
        Err(BatteryError::UnknownStatusCode(s.to_owned()))
    }

    /// The canonical display string for this status.
    pub fn to_string(&self) -> (r: String)
        ensures
            r@ == spec_status_name(*self),
    {
        match self {
            BatteryStatus::Charging => "Charging".to_owned(),
            BatteryStatus::Charged => "Charged".to_owned(),
            BatteryStatus::Discharging => "Discharging".to_owned(),
            BatteryStatus::Unknown => "Unknown".to_owned(),
        }
    }
}

} // verus!
