//! The sensor side: the events a session consumes, the identifiers of the
//! range service, and the decisions taken while scanning and listening.

use vstd::prelude::*;

verus! {

/// Identifier of the range service, as a 128-bit number.
pub const RANGE_SERVICE_UUID: u128 = 0x00000001_7272_6e67_6669_6e6465720000;

/// Identifier of the characteristic that notifies range readings.
pub const RANGE_CHAR_UUID: u128 = 0x00000002_7272_6e67_6669_6e6465720000;

/// Pause between two looks at the peripherals found so far, in milliseconds.
pub const SCAN_POLL_MILLIS: u64 = 250;

/// What the sensor side reports to a session.
#[derive(Debug, Clone, Copy, PartialEq, Eq, Structural)]
pub enum BleEvent {
    /// A new range reading, in millimetres.
    RangeUpdate(u16),
    /// The connection is lost; nothing follows.
    Disconnected,
    /// The connection is established.
    Connected,
}

/// The reading that two bytes hold, low byte first.
pub open spec fn reading_of(low: u8, high: u8) -> int {
    low + 256 * high
}

/// The event that a notification gives rise to: a range update when it
/// comes from the range characteristic and carries at least two bytes,
/// nothing otherwise.
pub open spec fn notified(characteristic: u128, value: Seq<u8>) -> Option<BleEvent> {
    if characteristic == RANGE_CHAR_UUID && value.len() >= 2 {
        Some(BleEvent::RangeUpdate(reading_of(value[0], value[1]) as u16))
    } else {
        None
    }
}

/// Decodes one notification.
pub fn decode_notification(characteristic: u128, value: &[u8]) -> (event: Option<BleEvent>)
    ensures
        event == notified(characteristic, value@),
        event matches Some(BleEvent::RangeUpdate(d)) ==> d as int == reading_of(
            value@[0],
            value@[1],
        ),
{
    if characteristic == RANGE_CHAR_UUID && value.len() >= 2 {
        let low: u16 = value[0] as u16;
        let high: u16 = value[1] as u16;
        Some(BleEvent::RangeUpdate(low + 256 * high))
    } else {
        None
    }
}

/// Whether `at` is the first place in `ids` that holds `wanted`.
pub open spec fn is_first_match(ids: Seq<u128>, wanted: u128, at: int) -> bool {
    &&& 0 <= at < ids.len()
    &&& ids[at] == wanted
    &&& forall|j: int| 0 <= j < at ==> ids[j] != wanted
}

/// The place of the range characteristic among the characteristics that a
/// peripheral offers: the first that carries its identifier, or `None` if
/// the peripheral offers none.
pub fn find_range_characteristic(characteristics: &[u128]) -> (found: Option<usize>)
    ensures
        match found {
            Some(at) => is_first_match(characteristics@, RANGE_CHAR_UUID, at as int),
            None => forall|j: int|
                0 <= j < characteristics@.len() ==> characteristics@[j] != RANGE_CHAR_UUID,
        },
{
    let mut i: usize = 0;
    while i < characteristics.len()
        invariant
            i <= characteristics@.len(),
            forall|j: int| 0 <= j < i ==> characteristics@[j] != RANGE_CHAR_UUID,
        decreases characteristics@.len() - i,
    {
        if characteristics[i] == RANGE_CHAR_UUID {
            return Some(i);
        }
        i += 1;
    }
    None
}

/// Whether a scan that has run for `elapsed_nanos` has outlasted its
/// timeout. A scan that has run for exactly the timeout has not.
pub fn scan_timed_out(elapsed_nanos: u128, timeout_secs: u64) -> (late: bool)
    ensures
        late == (elapsed_nanos > timeout_secs * 1_000_000_000),
{
    let limit: u128 = (timeout_secs as u128) * 1_000_000_000;
    elapsed_nanos > limit
}

/// Whether a peripheral that advertises `local_name` is the one to connect
/// to: it must advertise a name, and the name must be `device_name` exactly.
pub fn is_wanted_device(local_name: &Option<String>, device_name: &String) -> (wanted: bool)
    ensures
        wanted == (local_name matches Some(name) && name@ == device_name@),
{
    match local_name {
        Some(name) => *name == *device_name,
        None => false,
    }
}

} // verus!
