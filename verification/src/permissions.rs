//! The authorization gate the orchestrator consults before touching
//! the Bluetooth stack.

use vstd::prelude::*;

use crate::error::BatteryError;

verus! {

/// The message a denial carries; platforms known to gate Bluetooth
/// behind a privacy setting get a remediation hint.
pub open spec fn spec_permission_message(gated_platform: bool) -> Seq<char> {
    if gated_platform {
        "Unable to get adapters. Probably Bluetooth access is not allowed. Please enable it in System Preferences -> Security & Privacy -> Privacy -> Bluetooth"@
    } else {
        "Unable to get bluetooth permissions"@
    }
}

/// On platforms without a Bluetooth privacy gate, permission is
/// always granted.  A gated platform's driver asks its own stack
/// instead and feeds the answer to [`check_permissions`].
pub fn has_bluetooth_permission() -> (r: Result<bool, BatteryError>)
    ensures
        r matches Ok(b) && b,
{
    Ok(true)
}

/// Decides whether the run may proceed, from the platform's answer.
/// Denial is fatal and names what to do about it.
pub fn check_permissions(allowed: bool, gated_platform: bool) -> (r: Result<(), BatteryError>)
    ensures
        allowed ==> r is Ok,
        !allowed ==> (r matches Err(e) && e matches BatteryError::PermissionDenied(m) && m@
            == spec_permission_message(gated_platform)),
{
    if allowed {
        Ok(())
    } else if gated_platform {
        Err(
            BatteryError::PermissionDenied(
                "Unable to get adapters. Probably Bluetooth access is not allowed. Please enable it in System Preferences -> Security & Privacy -> Privacy -> Bluetooth".to_owned(),
            ),
        )
    } else {
        Err(BatteryError::PermissionDenied("Unable to get bluetooth permissions".to_owned()))
    }
}

} // verus!
