//! BLE client core: extracting a battery reading from the GATT
//! characteristics of one peripheral, and merging per-device outcomes
//! into one scan result.  The adapter driver performs the actual
//! connects and reads and feeds plain values in.

use vstd::prelude::*;

use crate::error::BatteryError;
use crate::status::BatteryStatus;

verus! {

/// Bluetooth SIG battery level characteristic.
pub const BATTERY_LEVEL_UUID: u128 = 0x00002a19_0000_1000_8000_00805f9b34fb;

/// Bluetooth SIG battery power state characteristic.
pub const BATTERY_POWER_STATE_UUID: u128 = 0x00002a1a_0000_1000_8000_00805f9b34fb;

/// One GATT characteristic as read from a peripheral: its UUID as the
/// 128-bit value, and the bytes of its current value.
pub struct GattCharacteristic {
    pub uuid: u128,
    pub value: Vec<u8>,
}

/// One BLE peripheral's battery state at scan time.
#[derive(Debug, PartialEq, Eq)]
pub struct BTBatteryLevel {
    pub name: String,
    pub level: u8,
    pub status: BatteryStatus,
}

pub open spec fn spec_first_byte(data: Seq<u8>) -> u8 {
    if data.len() > 0 {
        data[0]
    } else {
        0
    }
}

/// Level extractor: the first byte of the characteristic's value, or
/// 0 when no bytes came back.  Total — it never fails.
pub fn convert_bytes_to_level(data: Vec<u8>) -> (r: u8)
    ensures
        r == spec_first_byte(data@),
{
    if data.len() > 0 {
        return data[0];
    }
    0u8
}

/// What the status decoder yields for a power-state payload.  The
/// decoder is a placeholder: the bytes are read but not yet
/// interpreted, and every payload maps to `Discharging`.
pub open spec fn spec_status_from_bytes(data: Seq<u8>) -> BatteryStatus {
    BatteryStatus::Discharging
}

/// Status decoder placeholder; swap its body (and
/// [`spec_status_from_bytes`]) once a device documents the payload.
#[allow(unused_variables)]
pub fn convert_bytes_to_status(data: Vec<u8>) -> (r: BatteryStatus)
    ensures
        r == spec_status_from_bytes(data@),
{
    BatteryStatus::Discharging
}

/// The level a scan over the characteristics yields: the value of
/// the last battery-level characteristic seen, or 0 if none occurs.
pub open spec fn spec_device_level(cs: Seq<GattCharacteristic>) -> u8
    decreases cs.len(),
{
    if cs.len() == 0 {
        0
    } else if cs.last().uuid == BATTERY_LEVEL_UUID {
        spec_first_byte(cs.last().value@)
    } else {
        spec_device_level(cs.drop_last())
    }
}

/// The status a scan over the characteristics yields: decoded from
/// the last power-state characteristic seen, or `Discharging` if none
/// occurs.
pub open spec fn spec_device_status(cs: Seq<GattCharacteristic>) -> BatteryStatus
    decreases cs.len(),
{
    if cs.len() == 0 {
        BatteryStatus::Discharging
    } else if cs.last().uuid == BATTERY_POWER_STATE_UUID {
        spec_status_from_bytes(cs.last().value@)
    } else {
        spec_device_status(cs.drop_last())
    }
}

/// Builds one peripheral's reading from its display name and the
/// characteristics of all its services, in service order.  A missing
/// name fails — the caller decides whether to swallow that — while
/// missing characteristics never do: the reading then carries the
/// defaults.
pub fn process_device(name: Option<String>, characteristics: Vec<GattCharacteristic>) -> (r:
    Result<BTBatteryLevel, BatteryError>)
    ensures
        name is None ==> r == Err::<BTBatteryLevel, BatteryError>(BatteryError::NameUnavailable),
        name matches Some(n) ==> (r matches Ok(b) && b.name@ == n@ && b.level == spec_device_level(
            characteristics@,
        ) && b.status == spec_device_status(characteristics@)),
{
    let device_name = match name {
        Some(n) => n,
        None => {
            return Err(BatteryError::NameUnavailable);
        },
    };
    let ghost orig = characteristics@;
    let mut rest = characteristics;
    let mut level: u8 = 0;
    let mut status = BatteryStatus::Discharging;
    while rest.len() > 0
        invariant
            rest@.len() <= orig.len(),
            rest@ == orig.subrange(orig.len() - rest@.len(), orig.len() as int),
            level == spec_device_level(orig.subrange(0, orig.len() - rest@.len())),
            status == spec_device_status(orig.subrange(0, orig.len() - rest@.len())),
        decreases rest@.len(),
    {
        let ghost k = orig.len() - rest@.len();
        let c = rest.remove(0);
        proof {
            assert(c == orig[k as int]);
            assert(rest@ =~= orig.subrange(k + 1, orig.len() as int));
            assert(orig.subrange(0, k + 1).drop_last() =~= orig.subrange(0, k as int));
            assert(orig.subrange(0, k + 1).last() == orig[k as int]);
        }
        if c.uuid == BATTERY_LEVEL_UUID {
            level = convert_bytes_to_level(c.value);
        } else if c.uuid == BATTERY_POWER_STATE_UUID {
            status = convert_bytes_to_status(c.value);
        }
    }
    proof {
        assert(orig.subrange(0, orig.len() as int) =~= orig);
    }
    Ok(BTBatteryLevel { name: device_name, level, status })
}

/// The reading substituted for a peripheral whose connect or read
/// failed.
pub open spec fn spec_is_default_reading(b: BTBatteryLevel) -> bool {
    b.name@ == "unknown device"@ && b.level == 0 && b.status == BatteryStatus::Discharging
}

impl Default for BTBatteryLevel {
    /// The placeholder reading: unknown device, level 0, discharging.
    fn default() -> (r: Self)
        ensures
            spec_is_default_reading(r),
    {
        BTBatteryLevel {
            name: "unknown device".to_owned(),
            level: 0,
            status: BatteryStatus::Discharging,
        }
    }
}

/// Merges the per-device outcomes of one scan, in device order.  A
/// failed device (`None`) is replaced by the default reading rather
/// than failing the scan: one unreachable peripheral never stops
/// reporting on the rest, and the merge itself cannot fail.
pub fn process_adapter(outcomes: Vec<Option<BTBatteryLevel>>) -> (r: Vec<BTBatteryLevel>)
    ensures
        r@.len() == outcomes@.len(),
        forall|i: int|
            0 <= i < outcomes@.len() ==> match #[trigger] outcomes@[i] {
                Some(b) => r@[i] == b,
                None => spec_is_default_reading(r@[i]),
            },
{
    let ghost orig = outcomes@;
    let mut rest = outcomes;
    let mut out: Vec<BTBatteryLevel> = Vec::new();
    while rest.len() > 0
        invariant
            out@.len() + rest@.len() == orig.len(),
            rest@ == orig.subrange(out@.len() as int, orig.len() as int),
            forall|i: int|
                0 <= i < out@.len() ==> match #[trigger] orig[i] {
                    Some(b) => out@[i] == b,
                    None => spec_is_default_reading(out@[i]),
                },
        decreases rest@.len(),
    {
        let ghost k = out@.len() as int;
        let o = rest.remove(0);
        proof {
            assert(o == orig[k]);
            assert(rest@ =~= orig.subrange(k + 1, orig.len() as int));
        }
        match o {
            Some(b) => out.push(b),
            None => out.push(BTBatteryLevel::default()),
        }
    }
    out
}

} // verus!
