//! The decision engine: a pure, total function from a profile, a snapshot
//! and the hysteresis counter to a governor/turbo decision and the next
//! counter value, plus proofs of the policy's governing properties.
//!
//! Policy, per power source:
//! - Load is high when the load average is strictly above its threshold or
//!   CPU utilization is at or above its threshold; otherwise it is optimal.
//! - Optimal load selects the base governor, turbo off, and resets the
//!   counter.
//! - High load on battery with a known capacity at or below the battery
//!   threshold selects the low-battery governor, turbo off, and leaves the
//!   counter unchanged (a deliberate choice: the sustained-load history is
//!   kept, so turbo needs no fresh warm-up once the charger is plugged in).
//!   An absent battery reading never triggers this override.
//! - Any other high load selects the second-stage governor.  With turbo
//!   enabled the counter advances and turbo engages once it has reached the
//!   configured delay; with turbo disabled the counter is left unchanged.
//!
//! The low-battery branch always selects the profile's configured
//! low-battery governor; no governor name is ever synthesized.

use vstd::prelude::*;

use crate::model::{
    BatterySettingsView, Decision, DecisionView, HysteresisCounter, LoadAssessment, PowerSettings,
    PowerSettingsView, Profile, ProfileView, Snapshot, SnapshotView, TIME_INCREMENT_PER_RUN,
};

verus! {

/// The settings block selected by the snapshot's power source.
pub open spec fn active_settings(profile: ProfileView, ac_power: bool) -> PowerSettingsView {
    if ac_power {
        profile.plugged_in
    } else {
        profile.on_battery.settings
    }
}

/// High load: load average strictly above its threshold, or CPU
/// utilization at or above its threshold.  The asymmetry (strict vs.
/// inclusive) is part of the policy.
pub open spec fn spec_high_load(settings: PowerSettingsView, snapshot: SnapshotView) -> bool {
    ||| snapshot.load_avg > settings.load_avg_threshold
    ||| snapshot.cpu_user >= settings.load_perc_threshold
}

/// Low battery: a known capacity at or below the battery threshold.  An
/// absent reading counts as above the threshold.
pub open spec fn spec_low_battery(battery: BatterySettingsView, snapshot: SnapshotView) -> bool {
    match snapshot.battery_capacity {
        Option::Some(capacity) => capacity <= battery.battery_threshold_percent,
        Option::None => false,
    }
}

/// The complete decision rule: what `evaluate` returns and the counter
/// value it leaves behind.
pub open spec fn spec_evaluate(profile: ProfileView, snapshot: SnapshotView, counter: nat) -> (
    DecisionView,
    nat,
) {
    let settings = active_settings(profile, snapshot.ac_power);
    if !spec_high_load(settings, snapshot) {
        (
            DecisionView {
                target_governor: settings.base_governor,
                target_turbo: false,
                assessment: LoadAssessment::Optimal,
            },
            0,
        )
    } else if !snapshot.ac_power && spec_low_battery(profile.on_battery, snapshot) {
        (
            DecisionView {
                target_governor: profile.on_battery.low_battery_governor,
                target_turbo: false,
                assessment: LoadAssessment::HighLoadLowBattery,
            },
            counter,
        )
    } else if settings.turbo_enabled {
        (
            DecisionView {
                target_governor: settings.second_stage_governor,
                target_turbo: counter + TIME_INCREMENT_PER_RUN >= settings.turbo_delay_ticks,
                assessment: LoadAssessment::HighLoad,
            },
            (counter + TIME_INCREMENT_PER_RUN) as nat,
        )
    } else {
        (
            DecisionView {
                target_governor: settings.second_stage_governor,
                target_turbo: false,
                assessment: LoadAssessment::HighLoad,
            },
            counter,
        )
    }
}

/// Whether the snapshot is judged high load under `settings`.
pub fn is_high_load(settings: &PowerSettings, snapshot: &Snapshot) -> (high: bool)
    ensures
        high == spec_high_load(settings@, snapshot@),
{
    snapshot.load_avg > settings.load_avg_threshold
        || snapshot.cpu_user >= settings.load_perc_threshold
}

/// Whether the snapshot reports a known battery capacity at or below the
/// profile's battery threshold.
pub fn is_low_battery(profile: &Profile, snapshot: &Snapshot) -> (low: bool)
    ensures
        low == spec_low_battery(profile@.on_battery, snapshot@),
{
    match snapshot.battery_capacity {
        Option::Some(capacity) => capacity <= profile.on_battery.battery_threshold_percent,
        Option::None => false,
    }
}

/// The sole entry point of the core: map the profile, the current
/// snapshot and the counter to a decision, updating the counter in place.
/// Deterministic, total, and side-effect-free; called identically by the
/// applying and the advisory loops.
pub fn evaluate(profile: &Profile, snapshot: &Snapshot, counter: &mut HysteresisCounter) -> (d:
    Decision)
    requires
        profile@.wf(),
        snapshot@.wf(),
        old(counter)@ + TIME_INCREMENT_PER_RUN <= u32::MAX,
    ensures
        ({
            let (dv, next) = spec_evaluate(profile@, snapshot@, old(counter)@);
            &&& d@ == dv
            &&& final(counter)@ == next
        }),
{
    let settings = if snapshot.ac_power {
        &profile.plugged_in
    } else {
        &profile.on_battery.settings
    };
    if !is_high_load(settings, snapshot) {
        counter.reset();
        Decision {
            target_governor: settings.base_governor.clone(),
            target_turbo: false,
            assessment: LoadAssessment::Optimal,
        }
    } else if !snapshot.ac_power && is_low_battery(profile, snapshot) {
        Decision {
            target_governor: profile.on_battery.low_battery_governor.clone(),
            target_turbo: false,
            assessment: LoadAssessment::HighLoadLowBattery,
        }
    } else if settings.turbo_enabled {
        counter.advance();
        Decision {
            target_governor: settings.second_stage_governor.clone(),
            target_turbo: counter.ticks >= settings.turbo_delay_ticks,
            assessment: LoadAssessment::HighLoad,
        }
    } else {
        Decision {
            target_governor: settings.second_stage_governor.clone(),
            target_turbo: false,
            assessment: LoadAssessment::HighLoad,
        }
    }
}

/// Under optimal load -- load average at or below its threshold and CPU
/// utilization strictly below its threshold -- the decision is the active
/// base governor with turbo off, and the counter is reset to zero whatever
/// its input value was.
pub proof fn lemma_optimal_load_resets(profile: ProfileView, snapshot: SnapshotView, counter: nat)
    requires
        snapshot.load_avg <= active_settings(profile, snapshot.ac_power).load_avg_threshold,
        snapshot.cpu_user < active_settings(profile, snapshot.ac_power).load_perc_threshold,
    ensures
        spec_evaluate(profile, snapshot, counter).0 == (DecisionView {
            target_governor: active_settings(profile, snapshot.ac_power).base_governor,
            target_turbo: false,
            assessment: LoadAssessment::Optimal,
        }),
        spec_evaluate(profile, snapshot, counter).1 == 0,
{
}

/// Under high load with turbo enabled, outside the low-battery override,
/// turbo engages exactly when the advanced counter has reached the
/// configured delay.  (The low-battery override must be excluded: with a
/// known capacity at or below the battery threshold, turbo stays off no
/// matter how long load has been high.)
pub proof fn lemma_turbo_engages_after_delay(
    profile: ProfileView,
    snapshot: SnapshotView,
    counter: nat,
)
    requires
        spec_high_load(active_settings(profile, snapshot.ac_power), snapshot),
        !(!snapshot.ac_power && spec_low_battery(profile.on_battery, snapshot)),
        active_settings(profile, snapshot.ac_power).turbo_enabled,
        counter + TIME_INCREMENT_PER_RUN >= active_settings(
            profile,
            snapshot.ac_power,
        ).turbo_delay_ticks,
    ensures
        spec_evaluate(profile, snapshot, counter).0.target_turbo,
{
}

/// Under high load with turbo enabled, outside the low-battery override,
/// while the advanced counter has not yet reached the configured delay,
/// turbo stays off and the counter comes back advanced by exactly one tick
/// increment.
pub proof fn lemma_turbo_delayed_before_threshold(
    profile: ProfileView,
    snapshot: SnapshotView,
    counter: nat,
)
    requires
        spec_high_load(active_settings(profile, snapshot.ac_power), snapshot),
        !(!snapshot.ac_power && spec_low_battery(profile.on_battery, snapshot)),
        active_settings(profile, snapshot.ac_power).turbo_enabled,
        counter + TIME_INCREMENT_PER_RUN < active_settings(
            profile,
            snapshot.ac_power,
        ).turbo_delay_ticks,
    ensures
        !spec_evaluate(profile, snapshot, counter).0.target_turbo,
        spec_evaluate(profile, snapshot, counter).1 == counter + TIME_INCREMENT_PER_RUN,
{
}

/// Evaluation is pure: equal profiles, snapshots and counters give equal
/// decisions and equal next counters.  Together with `evaluate`'s
/// postcondition this makes two calls of `evaluate` on identical inputs
/// agree, so the advisory loop predicts exactly what the applying loop
/// would do given the same history.
pub proof fn lemma_evaluate_deterministic(
    profile1: ProfileView,
    profile2: ProfileView,
    snapshot1: SnapshotView,
    snapshot2: SnapshotView,
    counter1: nat,
    counter2: nat,
)
    requires
        profile1 == profile2,
        snapshot1 == snapshot2,
        counter1 == counter2,
    ensures
        spec_evaluate(profile1, snapshot1, counter1) == spec_evaluate(
            profile2,
            snapshot2,
            counter2,
        ),
{
}

/// Boundary, inclusive side: CPU utilization exactly at its threshold is
/// judged high load.
pub proof fn lemma_cpu_threshold_is_high_load(profile: ProfileView, snapshot: SnapshotView)
    requires
        snapshot.cpu_user == active_settings(profile, snapshot.ac_power).load_perc_threshold,
    ensures
        spec_high_load(active_settings(profile, snapshot.ac_power), snapshot),
{
}

/// Boundary, exclusive side: a load average exactly at its threshold does
/// not by itself make high load; with CPU utilization below its threshold
/// the load is judged optimal.
pub proof fn lemma_load_avg_threshold_is_not_high_load(profile: ProfileView, snapshot: SnapshotView)
    requires
        snapshot.load_avg == active_settings(profile, snapshot.ac_power).load_avg_threshold,
        snapshot.cpu_user < active_settings(profile, snapshot.ac_power).load_perc_threshold,
    ensures
        !spec_high_load(active_settings(profile, snapshot.ac_power), snapshot),
{
}

/// The decided governor is always one of the names drawn from the profile
/// -- the active base or second-stage governor, or, on battery, the
/// low-battery governor -- never a synthesized name.
pub proof fn lemma_governor_drawn_from_profile(
    profile: ProfileView,
    snapshot: SnapshotView,
    counter: nat,
)
    ensures
        ({
            let chosen = spec_evaluate(profile, snapshot, counter).0.target_governor;
            ||| chosen == active_settings(profile, snapshot.ac_power).base_governor
            ||| chosen == active_settings(profile, snapshot.ac_power).second_stage_governor
            ||| (!snapshot.ac_power && chosen == profile.on_battery.low_battery_governor)
        }),
{
}

/// Turbo is gated twice over: it is decided on only when the active
/// settings enable it and the counter, as returned, has reached the
/// configured delay.
pub proof fn lemma_turbo_gated(profile: ProfileView, snapshot: SnapshotView, counter: nat)
    ensures
        spec_evaluate(profile, snapshot, counter).0.target_turbo ==> active_settings(
            profile,
            snapshot.ac_power,
        ).turbo_enabled,
        spec_evaluate(profile, snapshot, counter).0.target_turbo ==> spec_evaluate(
            profile,
            snapshot,
            counter,
        ).1 >= active_settings(profile, snapshot.ac_power).turbo_delay_ticks,
{
}

/// Each evaluation either resets the counter, leaves it alone, or advances
/// it by exactly one tick increment: between resets the counter never
/// decreases.
pub proof fn lemma_counter_step(profile: ProfileView, snapshot: SnapshotView, counter: nat)
    ensures
        ({
            let next = spec_evaluate(profile, snapshot, counter).1;
            ||| next == 0
            ||| next == counter
            ||| next == counter + TIME_INCREMENT_PER_RUN
        }),
        spec_evaluate(profile, snapshot, counter).1 == 0 || spec_evaluate(
            profile,
            snapshot,
            counter,
        ).1 >= counter,
{
}

} // verus!
