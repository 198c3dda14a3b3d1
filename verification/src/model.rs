//! Data model: per-session profiles, telemetry snapshots, decisions, and
//! the hysteresis counter that the decision engine threads across cycles.
//!
//! Load figures (load average and CPU utilization) are carried as
//! fixed-point integers in hundredths of a unit, so that a load average of
//! `1.25` is stored as `125` and a CPU utilization of `20%` as `2000`.
//! This keeps every comparison the engine makes exact.

use vstd::prelude::*;

verus! {

/// Settings for one power source (AC or battery).
///
/// `load_avg_threshold` and `load_perc_threshold` are fixed-point values in
/// hundredths, like the matching snapshot fields.
pub struct PowerSettings {
    /// Governor applied while load is judged optimal.
    pub base_governor: String,
    /// Elevated-performance governor applied under sustained high load.
    pub second_stage_governor: String,
    /// Whether turbo boost may be engaged at all on this power source.
    pub turbo_enabled: bool,
    /// How many counter ticks of sustained high load must accumulate
    /// before turbo is engaged.
    pub turbo_delay_ticks: u32,
    /// High load by load average is strictly above this (hundredths).
    pub load_avg_threshold: u64,
    /// High load by CPU utilization is at or above this (hundredths of a percent).
    pub load_perc_threshold: u64,
}

/// Battery-specific settings: the common settings plus the low-battery
/// override.
pub struct BatterySettings {
    pub settings: PowerSettings,
    /// Battery capacities at or below this percentage trigger the
    /// low-battery override under high load.
    pub battery_threshold_percent: u8,
    /// Governor forced while the battery is low and load is high.
    pub low_battery_governor: String,
}

/// The per-session configuration: one settings block per power source.
/// Loaded once and frozen for the life of the session.
pub struct Profile {
    pub plugged_in: PowerSettings,
    pub on_battery: BatterySettings,
}

/// A point-in-time read of system state, freshly constructed every cycle.
pub struct Snapshot {
    /// One-minute load average, in hundredths.
    pub load_avg: u64,
    /// CPU time spent in user mode, in hundredths of a percent (0..=10000).
    pub cpu_user: u64,
    /// Battery capacity in percent (0..=100), or `None` when no battery is
    /// present.  Absence is explicit, never an out-of-range sentinel.
    pub battery_capacity: Option<u8>,
    /// Whether the machine currently runs on AC power.
    pub ac_power: bool,
    /// Number of CPU cores (positive).
    pub core_count: u32,
}

/// Why the engine chose the governor and turbo state it did; carried on a
/// `Decision` for display purposes.
#[derive(Clone, Copy, Debug, PartialEq, Eq, Structural)]
pub enum LoadAssessment {
    /// Load is optimal: base governor, turbo off, counter reset.
    Optimal,
    /// Sustained high load: second-stage governor, turbo per the delay rule.
    HighLoad,
    /// High load while the battery is low: low-battery governor, turbo off.
    HighLoadLowBattery,
}

/// What should be applied to the hardware (or merely suggested): a target
/// governor, a target turbo state, and the reason for the choice.
#[derive(Debug)]
pub struct Decision {
    pub target_governor: String,
    pub target_turbo: bool,
    pub assessment: LoadAssessment,
}

/// Debounce counter for turbo activation.  Counts ticks of sustained high
/// load; one `advance` per evaluation cycle, so elapsed ticks approximate
/// elapsed wall-clock time.  Session-lifetime only: created at 0, never
/// persisted.
#[derive(Clone, Copy, Debug, PartialEq, Eq, Structural)]
pub struct HysteresisCounter {
    pub ticks: u32,
}

/// Ticks added to the hysteresis counter by each evaluation cycle spent in
/// the high-load, turbo-enabled state.
pub const TIME_INCREMENT_PER_RUN: u32 = 4;

/// Mathematical model of `PowerSettings`.
pub struct PowerSettingsView {
    pub base_governor: Seq<char>,
    pub second_stage_governor: Seq<char>,
    pub turbo_enabled: bool,
    pub turbo_delay_ticks: nat,
    pub load_avg_threshold: nat,
    pub load_perc_threshold: nat,
}

/// Mathematical model of `BatterySettings`.
pub struct BatterySettingsView {
    pub settings: PowerSettingsView,
    pub battery_threshold_percent: nat,
    pub low_battery_governor: Seq<char>,
}

/// Mathematical model of `Profile`.
pub struct ProfileView {
    pub plugged_in: PowerSettingsView,
    pub on_battery: BatterySettingsView,
}

/// Mathematical model of `Snapshot`.
pub struct SnapshotView {
    pub load_avg: nat,
    pub cpu_user: nat,
    pub battery_capacity: Option<nat>,
    pub ac_power: bool,
    pub core_count: nat,
}

/// Mathematical model of `Decision`.
pub struct DecisionView {
    pub target_governor: Seq<char>,
    pub target_turbo: bool,
    pub assessment: LoadAssessment,
}

impl View for PowerSettings {
    type V = PowerSettingsView;

    open spec fn view(&self) -> PowerSettingsView {
        PowerSettingsView {
            base_governor: self.base_governor@,
            second_stage_governor: self.second_stage_governor@,
            turbo_enabled: self.turbo_enabled,
            turbo_delay_ticks: self.turbo_delay_ticks as nat,
            load_avg_threshold: self.load_avg_threshold as nat,
            load_perc_threshold: self.load_perc_threshold as nat,
        }
    }
}

impl View for BatterySettings {
    type V = BatterySettingsView;

    open spec fn view(&self) -> BatterySettingsView {
        BatterySettingsView {
            settings: self.settings@,
            battery_threshold_percent: self.battery_threshold_percent as nat,
            low_battery_governor: self.low_battery_governor@,
        }
    }
}

impl View for Profile {
    type V = ProfileView;

    open spec fn view(&self) -> ProfileView {
        ProfileView { plugged_in: self.plugged_in@, on_battery: self.on_battery@ }
    }
}

impl View for Snapshot {
    type V = SnapshotView;

    open spec fn view(&self) -> SnapshotView {
        SnapshotView {
            load_avg: self.load_avg as nat,
            cpu_user: self.cpu_user as nat,
            battery_capacity: match self.battery_capacity {
                Option::Some(c) => Option::Some(c as nat),
                Option::None => Option::None,
            },
            ac_power: self.ac_power,
            core_count: self.core_count as nat,
        }
    }
}

impl View for Decision {
    type V = DecisionView;

    open spec fn view(&self) -> DecisionView {
        DecisionView {
            target_governor: self.target_governor@,
            target_turbo: self.target_turbo,
            assessment: self.assessment,
        }
    }
}

impl View for HysteresisCounter {
    type V = nat;

    open spec fn view(&self) -> nat {
        self.ticks as nat
    }
}

impl SnapshotView {
    /// A snapshot is well formed when its fields lie in the ranges the
    /// telemetry reader guarantees: utilization at most 100%, capacity (when
    /// present) at most 100%, and at least one core.
    pub open spec fn wf(&self) -> bool {
        &&& self.cpu_user <= 10000
        &&& (self.battery_capacity matches Option::Some(c) ==> c <= 100)
        &&& self.core_count >= 1
    }
}

impl ProfileView {
    /// A profile is well formed when its battery threshold is a percentage.
    /// Governor names are confirmed against the platform's available set
    /// upstream (see `governors_available`).
    pub open spec fn wf(&self) -> bool {
        self.on_battery.battery_threshold_percent <= 100
    }
}

impl HysteresisCounter {
    /// A fresh counter, as created at session start.
    pub fn new() -> (c: HysteresisCounter)
        ensures
            c@ == 0,
    {
        HysteresisCounter { ticks: 0 }
    }

    /// Reset to zero; done exactly when load is judged optimal.
    pub fn reset(&mut self)
        ensures
            final(self)@ == 0,
    {
        self.ticks = 0;
    }

    /// Advance by one cycle's worth of ticks.
    pub fn advance(&mut self)
        requires
            old(self)@ + TIME_INCREMENT_PER_RUN <= u32::MAX,
        ensures
            final(self)@ == old(self)@ + TIME_INCREMENT_PER_RUN,
    {
        self.ticks = self.ticks + TIME_INCREMENT_PER_RUN;
    }
}

/// Whether `name` occurs in `list`, compared character for character.
pub fn governor_in_list(list: &Vec<String>, name: &String) -> (present: bool)
    ensures
        present == exists|i: int| 0 <= i < list@.len() && list@[i]@ == name@,
{
    let mut k: usize = 0;
    while k < list.len()
        invariant
            0 <= k <= list@.len(),
            forall|i: int| 0 <= i < k ==> list@[i]@ != name@,
        decreases list@.len() - k,
    {
        if list[k].eq(name) {
            return true;
        }
        k = k + 1;
    }
    false
}

impl Profile {
    /// Whether every governor this profile can select under normal load --
    /// the base and second-stage governors of both power sources -- is a
    /// member of the platform's available-governor set.  Run once before
    /// the session starts; the engine assumes it has passed.
    pub fn governors_available(&self, available: &Vec<String>) -> (ok: bool)
        ensures
            ok == ({
                &&& (exists|i: int| 0 <= i < available@.len()
                        && available@[i]@ == self.plugged_in.base_governor@)
                &&& (exists|i: int| 0 <= i < available@.len()
                        && available@[i]@ == self.plugged_in.second_stage_governor@)
                &&& (exists|i: int| 0 <= i < available@.len()
                        && available@[i]@ == self.on_battery.settings.base_governor@)
                &&& (exists|i: int| 0 <= i < available@.len()
                        && available@[i]@ == self.on_battery.settings.second_stage_governor@)
            }),
    {
        let a = governor_in_list(available, &self.plugged_in.base_governor);
        let b = governor_in_list(available, &self.plugged_in.second_stage_governor);
        let c = governor_in_list(available, &self.on_battery.settings.base_governor);
        let d = governor_in_list(available, &self.on_battery.settings.second_stage_governor);
        a && b && c && d
    }
}

} // verus!
