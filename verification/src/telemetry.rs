//! Pure halves of the telemetry readers: combining the capacity readings
//! of up to two batteries, judging the power source from battery status
//! lines, and mapping turbo flags through the inverted sysfs encoding.
//! The raw reads against OS pseudo-files stay with the surrounding
//! program, which hands plain values in.

use vstd::prelude::*;

verus! {

/// The overall battery capacity for up to two battery readings: the mean
/// (rounded down) when both are present, the single reading when one is,
/// and absent when none is.
pub open spec fn spec_combined_capacity(first: Option<u8>, second: Option<u8>) -> Option<u8> {
    match (first, second) {
        (Option::Some(a), Option::Some(b)) => Option::Some(((a + b) / 2) as u8),
        (Option::Some(a), Option::None) => Option::Some(a),
        (Option::None, Option::Some(b)) => Option::Some(b),
        (Option::None, Option::None) => Option::None,
    }
}

/// Combine the capacity readings of up to two batteries into one
/// percentage, or report absence explicitly.
pub fn combined_battery_capacity(first: Option<u8>, second: Option<u8>) -> (capacity: Option<
    u8,
>)
    requires
        first matches Option::Some(a) ==> a <= 100,
        second matches Option::Some(b) ==> b <= 100,
    ensures
        capacity == spec_combined_capacity(first, second),
{
    match (first, second) {
        (Option::Some(a), Option::Some(b)) => Option::Some((a + b) / 2),
        (Option::Some(a), Option::None) => Option::Some(a),
        (Option::None, Option::Some(b)) => Option::Some(b),
        (Option::None, Option::None) => Option::None,
    }
}

/// The machine runs on AC power exactly when no present battery reports
/// that it is discharging.  `None` stands for an absent battery; a machine
/// without batteries is always on AC.
pub fn on_ac_from_statuses(first_discharging: Option<bool>, second_discharging: Option<bool>) -> (
    ac: bool)
    ensures
        ac == (first_discharging != Option::Some(true) && second_discharging != Option::Some(
            true,
        )),
{
    let first_drains = match first_discharging {
        Option::Some(d) => d,
        Option::None => false,
    };
    let second_drains = match second_discharging {
        Option::Some(d) => d,
        Option::None => false,
    };
    !first_drains && !second_drains
}

/// Map a turbo flag through the sysfs encoding.  One pseudo-file family
/// stores "turbo off" bits and the other "turbo on" bits, so the same
/// exclusive-or serves both to decode a read bit into a turbo state and to
/// encode a desired state into the bit to write.
pub fn apply_turbo_inversion(value: bool, inverted: bool) -> (flag: bool)
    ensures
        flag == (value != inverted),
{
    value != inverted
}

} // verus!
