use yablo::telemetry::{apply_turbo_inversion, combined_battery_capacity, on_ac_from_statuses};

#[test]
fn capacity_of_two_batteries_is_the_mean() {
    assert_eq!(combined_battery_capacity(Some(60), Some(50)), Some(55));
}

#[test]
fn capacity_mean_rounds_down() {
    assert_eq!(combined_battery_capacity(Some(51), Some(50)), Some(50));
}

#[test]
fn capacity_of_a_single_battery_passes_through() {
    assert_eq!(combined_battery_capacity(Some(70), None), Some(70));
    assert_eq!(combined_battery_capacity(None, Some(30)), Some(30));
}

#[test]
fn capacity_without_batteries_is_absent() {
    assert_eq!(combined_battery_capacity(None, None), None);
}

#[test]
fn no_batteries_means_ac_power() {
    assert!(on_ac_from_statuses(None, None));
}

#[test]
fn any_discharging_battery_means_battery_power() {
    assert!(!on_ac_from_statuses(Some(true), None));
    assert!(!on_ac_from_statuses(None, Some(true)));
    assert!(!on_ac_from_statuses(Some(false), Some(true)));
}

#[test]
fn charging_batteries_mean_ac_power() {
    assert!(on_ac_from_statuses(Some(false), None));
    assert!(on_ac_from_statuses(Some(false), Some(false)));
}

#[test]
fn turbo_flag_passes_through_uninverted() {
    assert!(apply_turbo_inversion(true, false));
    assert!(!apply_turbo_inversion(false, false));
}

#[test]
fn turbo_flag_flips_when_inverted() {
    assert!(!apply_turbo_inversion(true, true));
    assert!(apply_turbo_inversion(false, true));
}
