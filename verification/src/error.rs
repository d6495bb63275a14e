//! Error taxonomy for the battery query pipelines.

use vstd::prelude::*;

verus! {

/// Everything that can go wrong while querying devices.
///
/// `EmptyResponse` and `InvalidText` are protocol faults on the serial
/// path; `UnknownStatusCode` and `BadLevel` are parse faults wrapping a
/// malformed payload (each carries the offending value); `Io` carries a
/// transport error message supplied by the caller.
#[derive(Debug, PartialEq, Eq)]
pub enum BatteryError {
    PermissionDenied(String),
    AdapterUnavailable,
    NameUnavailable,
    EmptyResponse,
    InvalidText,
    UnknownStatusCode(String),
    BadLevel(String),
    Io(String),
}

/// The message `describe` renders for an error value.
pub open spec fn spec_describe(e: BatteryError) -> Seq<char> {
    match e {
        BatteryError::PermissionDenied(m) => m@,
        BatteryError::AdapterUnavailable => "Bluetooth adapter not found"@,
        BatteryError::NameUnavailable => "Device name is not available"@,
        BatteryError::EmptyResponse => "Got empty response"@,
        BatteryError::InvalidText => "Response is not valid text"@,
        BatteryError::UnknownStatusCode(v) => "Error converting BatteryStatus: unknown value "@ + v@,
        BatteryError::BadLevel(v) => "Error parsing battery level: invalid value "@ + v@,
        BatteryError::Io(m) => m@,
    }
}

impl BatteryError {
    /// A human-readable message for this error.
    pub fn describe(&self) -> (r: String)
        ensures
            r@ == spec_describe(*self),
    {
        match self {
            BatteryError::PermissionDenied(m) => m.clone(),
            BatteryError::AdapterUnavailable => "Bluetooth adapter not found".to_owned(),
            BatteryError::NameUnavailable => "Device name is not available".to_owned(),
            BatteryError::EmptyResponse => "Got empty response".to_owned(),
            BatteryError::InvalidText => "Response is not valid text".to_owned(),
            BatteryError::UnknownStatusCode(v) => "Error converting BatteryStatus: unknown value "
                .to_owned()
                .concat(v.as_str()),
            BatteryError::BadLevel(v) => "Error parsing battery level: invalid value "
                .to_owned()
                .concat(v.as_str()),
            BatteryError::Io(m) => m.clone(),
        }
    }
}

} // verus!
