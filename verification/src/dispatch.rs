//! Dispatch optimizer: the power dispatch decision of each control cycle.
//!
//! A rule-based priority strategy: solar first, then battery discharge, then
//! the diesel generator, and load shedding for whatever remains. Surplus solar
//! charges the battery.
use vstd::prelude::*;

use crate::config::SiteConfig;
use crate::devices::{AgentState, SensorReadings};
use crate::knowledge::KnowledgeGraph;
use crate::text::{fixed_text, push_fixed};
use crate::units::{in_limits, is_in_limits, max_int, min_i64, min_int, ONE_PPM};

verus! {

/// A dispatch decision produced by the optimizer and possibly modified by the
/// autonomic safety controller.
#[derive(Clone, Debug)]
pub struct DispatchDecision {
    /// Solar power delivered to the load (W).
    pub solar_w: i64,
    /// Battery power (W); positive when charging, negative when discharging.
    pub battery_w: i64,
    /// Diesel generator output (W).
    pub diesel_w: i64,
    /// Load shed (W): demand that cannot be met.
    pub load_shed_w: i64,
    /// Whether to start the diesel generator.
    pub diesel_start: bool,
    /// Whether to stop the diesel generator.
    pub diesel_stop: bool,
    /// Human-readable reasoning for this decision.
    pub reasoning: String,
    /// Whether the autonomic controller overrode the optimizer's decision.
    pub overridden: bool,
}

impl Default for DispatchDecision {
    /// Nothing dispatched, no generator command, empty reasoning.
    fn default() -> (d: DispatchDecision)
        ensures
            d.solar_w == 0,
            d.battery_w == 0,
            d.diesel_w == 0,
            d.load_shed_w == 0,
            !d.diesel_start,
            !d.diesel_stop,
            d.reasoning@ == Seq::<char>::empty(),
            !d.overridden,
    {
        DispatchDecision {
            solar_w: 0,
            battery_w: 0,
            diesel_w: 0,
            load_shed_w: 0,
            diesel_start: false,
            diesel_stop: false,
            reasoning: String::new(),
            overridden: false,
        }
    }
}

/// State of charge above which surplus solar no longer charges the battery
/// (95 %, in µ%).
pub const SOLAR_CHARGE_CEILING_MICRO_PCT: i64 = 95_000_000;

/// Unmet load above which the diesel generator is started (W); smaller
/// deficits are not worth the start and would make it hunt.
pub const DIESEL_START_THRESHOLD_W: i64 = 500;

/// Unmet load above which load is shed (W).
pub const LOAD_SHED_THRESHOLD_W: i64 = 10;

/// Maximum battery discharge power (W): a C/2 rate, half the capacity in Wh,
/// truncated toward zero.
pub open spec fn discharge_limit_w(capacity_wh: int) -> int {
    if capacity_wh >= 0 {
        capacity_wh / 2
    } else {
        -((-capacity_wh) / 2)
    }
}

/// The lowest state of charge (µ%) the dispatcher discharges to:
/// `(1 - max_dod) · 100 %`.
pub open spec fn min_soc_for_dod(max_dod_ppm: int) -> int {
    (ONE_PPM - max_dod_ppm) * 100
}

/// Reasoning text of a rule-based decision.
pub open spec fn dispatch_reasoning(solar_w: int, battery_w: int, diesel_w: int, shed_w: int, soc: int) -> Seq<char> {
    "Rule-based: solar="@ + fixed_text(solar_w, 2, 1) + "kW to load, battery="@ + fixed_text(
        battery_w,
        2,
        1,
    ) + "kW, diesel="@ + fixed_text(diesel_w, 2, 1) + "kW, shed="@ + fixed_text(shed_w, 2, 1)
        + "kW (SOC="@ + fixed_text(soc, 6, 0) + "%)"@
}

/// The dispatch optimizer. Computes power allocation each control cycle.
pub struct Dispatcher {
    solar_capacity_w: i64,
    battery_capacity_wh: i64,
    diesel_capacity_w: i64,
    max_dod_ppm: i64,
}

impl Dispatcher {
    /// Peak solar capacity (W).
    pub closed spec fn spec_solar_capacity_w(&self) -> int {
        self.solar_capacity_w as int
    }

    /// Battery capacity (Wh).
    pub closed spec fn spec_battery_capacity_wh(&self) -> int {
        self.battery_capacity_wh as int
    }

    /// Diesel generator rating (W).
    pub closed spec fn spec_diesel_capacity_w(&self) -> int {
        self.diesel_capacity_w as int
    }

    /// Maximum depth of discharge (ppm).
    pub closed spec fn spec_max_dod_ppm(&self) -> int {
        self.max_dod_ppm as int
    }

    /// Every setting lies within the kernel's working range.
    pub open spec fn within_limits(&self) -> bool {
        &&& in_limits(self.spec_solar_capacity_w())
        &&& in_limits(self.spec_battery_capacity_wh())
        &&& in_limits(self.spec_diesel_capacity_w())
        &&& in_limits(self.spec_max_dod_ppm())
    }

    /// Whether every setting lies within the kernel's working range.
    pub fn check_limits(&self) -> (b: bool)
        ensures
            b == self.within_limits(),
    {
        is_in_limits(self.solar_capacity_w) && is_in_limits(self.battery_capacity_wh)
            && is_in_limits(self.diesel_capacity_w) && is_in_limits(self.max_dod_ppm)
    }

    /// Solar power sent to the load: all of it, up to the load.
    pub open spec fn planned_solar_w(&self, r: SensorReadings) -> int {
        min_int(r.solar_w as int, r.load_w as int)
    }

    /// Load left after solar.
    pub open spec fn unmet_after_solar(&self, r: SensorReadings) -> int {
        r.load_w - self.planned_solar_w(r)
    }

    /// Whether the battery covers load: load is left after solar and the state
    /// of charge is above the depth-of-discharge floor.
    pub open spec fn discharges(&self, r: SensorReadings) -> bool {
        self.unmet_after_solar(r) > 0 && r.battery_soc_micro_pct > min_soc_for_dod(
            self.spec_max_dod_ppm(),
        )
    }

    /// Battery discharge power: the unmet load, up to the C/2 limit.
    pub open spec fn planned_discharge_w(&self, r: SensorReadings) -> int {
        if self.discharges(r) {
            min_int(self.unmet_after_solar(r), discharge_limit_w(self.spec_battery_capacity_wh()))
        } else {
            0
        }
    }

    /// Battery power: minus the discharge when discharging; otherwise the
    /// surplus solar below a 95 % state of charge; otherwise nothing.
    pub open spec fn planned_battery_w(&self, r: SensorReadings) -> int {
        if self.discharges(r) {
            -self.planned_discharge_w(r)
        } else if r.solar_w - self.planned_solar_w(r) > 0 && r.battery_soc_micro_pct
            < SOLAR_CHARGE_CEILING_MICRO_PCT {
            r.solar_w - self.planned_solar_w(r)
        } else {
            0
        }
    }

    /// Load left after solar and battery.
    pub open spec fn unmet_after_battery(&self, r: SensorReadings) -> int {
        self.unmet_after_solar(r) - self.planned_discharge_w(r)
    }

    /// Whether the diesel generator is started: more than 500 W unmet.
    pub open spec fn diesel_runs(&self, r: SensorReadings) -> bool {
        self.unmet_after_battery(r) > DIESEL_START_THRESHOLD_W
    }

    /// Diesel output: the unmet load, up to the generator rating.
    pub open spec fn planned_diesel_w(&self, r: SensorReadings) -> int {
        if self.diesel_runs(r) {
            min_int(self.unmet_after_battery(r), self.spec_diesel_capacity_w())
        } else {
            0
        }
    }

    /// Load left after solar, battery and diesel.
    pub open spec fn unmet_after_diesel(&self, r: SensorReadings) -> int {
        self.unmet_after_battery(r) - self.planned_diesel_w(r)
    }

    /// Load shed: whatever remains, when it exceeds 10 W.
    pub open spec fn planned_shed_w(&self, r: SensorReadings) -> int {
        if self.unmet_after_diesel(r) > LOAD_SHED_THRESHOLD_W {
            self.unmet_after_diesel(r)
        } else {
            0
        }
    }

    /// Create a new dispatcher from the site configuration.
    pub fn new(config: &SiteConfig) -> (d: Dispatcher)
        ensures
            d.spec_solar_capacity_w() == config.solar.capacity_w,
            d.spec_battery_capacity_wh() == config.battery.capacity_wh,
            d.spec_diesel_capacity_w() == config.diesel.capacity_w,
            d.spec_max_dod_ppm() == config.battery.max_dod_ppm,
    {
        Dispatcher {
            solar_capacity_w: config.solar.capacity_w,
            battery_capacity_wh: config.battery.capacity_wh,
            diesel_capacity_w: config.diesel.capacity_w,
            max_dod_ppm: config.battery.max_dod_ppm,
        }
    }

    /// Compute the dispatch decision for the current state.
    ///
    /// Priority order: solar, battery discharge, diesel; excess solar charges
    /// the battery. The knowledge graph is available for knowledge-informed
    /// dispatch (priority loads, market days) but is not used yet.
    pub fn solve(&self, state: &AgentState, _kg: &KnowledgeGraph) -> (d: DispatchDecision)
        requires
            self.within_limits(),
            state.latest_readings.within_limits(),
        ensures
            d.solar_w == self.planned_solar_w(state.latest_readings),
            d.battery_w == self.planned_battery_w(state.latest_readings),
            d.diesel_w == self.planned_diesel_w(state.latest_readings),
            d.load_shed_w == self.planned_shed_w(state.latest_readings),
            d.diesel_start == self.diesel_runs(state.latest_readings),
            !d.diesel_stop,
            !d.overridden,
            d.reasoning@ == dispatch_reasoning(
                d.solar_w as int,
                d.battery_w as int,
                d.diesel_w as int,
                d.load_shed_w as int,
                state.latest_readings.battery_soc_micro_pct as int,
            ),
    {
        let readings = &state.latest_readings;
        let load = readings.load_w;
        let solar = readings.solar_w;
        let soc = readings.battery_soc_micro_pct;

        let mut decision = DispatchDecision::default();
        let mut remaining_load = load;

        // 1. Use all available solar.
        let solar_to_load = min_i64(solar, remaining_load);
        decision.solar_w = solar_to_load;
        remaining_load = remaining_load - solar_to_load;

        // Excess solar charges the battery.
        let excess_solar = solar - solar_to_load;
        if excess_solar > 0 && soc < SOLAR_CHARGE_CEILING_MICRO_PCT {
            decision.battery_w = excess_solar;
        }

        // 2. Discharge the battery to cover the remaining load.
        let min_soc = (ONE_PPM - self.max_dod_ppm) * 100;
        if remaining_load > 0 && soc > min_soc {
            let max_battery_discharge = if self.battery_capacity_wh >= 0 {
                self.battery_capacity_wh / 2
            } else {
                -((-self.battery_capacity_wh) / 2)
            };
            let battery_discharge = min_i64(remaining_load, max_battery_discharge);
            decision.battery_w = -battery_discharge;
            remaining_load = remaining_load - battery_discharge;
        }

        // 3. Start the diesel generator if load is still unmet.
        if remaining_load > DIESEL_START_THRESHOLD_W {
            let diesel_output = min_i64(remaining_load, self.diesel_capacity_w);
            decision.diesel_w = diesel_output;
            decision.diesel_start = true;
            remaining_load = remaining_load - diesel_output;
        }

        // 4. Whatever remains is shed.
        if remaining_load > LOAD_SHED_THRESHOLD_W {
            decision.load_shed_w = remaining_load;
        }

        decision.reasoning = dispatch_reasoning_text(
            decision.solar_w,
            decision.battery_w,
            decision.diesel_w,
            decision.load_shed_w,
            soc,
        );
        decision
    }
}

/// Law (power balance): with a non-negative load, solar output and ratings,
/// the solar sent to the load, the battery discharge, the diesel output and
/// the shed load are each non-negative and together fall short of the load by
/// at most the 10 W shedding threshold.
pub proof fn lemma_dispatch_covers_load(d: Dispatcher, r: SensorReadings)
    requires
        r.load_w >= 0,
        r.solar_w >= 0,
        d.spec_battery_capacity_wh() >= 0,
        d.spec_diesel_capacity_w() >= 0,
    ensures
        ({
            let discharge = max_int(0, -d.planned_battery_w(r));
            let supplied = d.planned_solar_w(r) + discharge + d.planned_diesel_w(r)
                + d.planned_shed_w(r);
            &&& d.planned_solar_w(r) >= 0
            &&& d.planned_diesel_w(r) >= 0
            &&& d.planned_shed_w(r) >= 0
            &&& 0 <= r.load_w - supplied <= LOAD_SHED_THRESHOLD_W
        }),
{
}

/// Law (equipment limits): with non-negative ratings, the diesel output never
/// exceeds the generator rating, the battery never discharges faster than
/// C/2, and the battery only charges from surplus solar, below 95 % state of
/// charge.
pub proof fn lemma_dispatch_respects_limits(d: Dispatcher, r: SensorReadings)
    requires
        d.spec_battery_capacity_wh() >= 0,
        d.spec_diesel_capacity_w() >= 0,
    ensures
        d.planned_diesel_w(r) <= d.spec_diesel_capacity_w(),
        d.planned_battery_w(r) >= -discharge_limit_w(d.spec_battery_capacity_wh()),
        d.planned_battery_w(r) > 0 ==> {
            &&& r.solar_w > r.load_w
            &&& d.planned_battery_w(r) == r.solar_w - r.load_w
            &&& r.battery_soc_micro_pct < SOLAR_CHARGE_CEILING_MICRO_PCT
        },
{
}

/// Law (merit order): the battery discharges only once all solar goes to the
/// load; the diesel generator runs only once all solar goes to the load and
/// the battery is either at its depth-of-discharge floor or at its C/2 limit;
/// more than 500 W of load is shed only with the generator at full rating;
/// with a non-negative battery capacity, the generator is started exactly
/// when more than 500 W remain unmet after solar and battery.
pub proof fn lemma_dispatch_merit_order(d: Dispatcher, r: SensorReadings)
    ensures
        d.planned_battery_w(r) < 0 ==> d.planned_solar_w(r) == r.solar_w,
        d.planned_diesel_w(r) > 0 ==> {
            &&& d.planned_solar_w(r) == r.solar_w
            &&& (r.battery_soc_micro_pct <= min_soc_for_dod(d.spec_max_dod_ppm())
                || d.planned_battery_w(r) == -discharge_limit_w(d.spec_battery_capacity_wh()))
        },
        d.planned_shed_w(r) > DIESEL_START_THRESHOLD_W ==> {
            &&& d.diesel_runs(r)
            &&& d.planned_diesel_w(r) == d.spec_diesel_capacity_w()
        },
        d.spec_battery_capacity_wh() >= 0 ==> d.diesel_runs(r) == (r.load_w - d.planned_solar_w(r)
            - max_int(0, -d.planned_battery_w(r)) > DIESEL_START_THRESHOLD_W),
{
}

/// Law (battery before diesel and shedding): whenever solar leaves part of the
/// load unmet and the state of charge is above the depth-of-discharge floor
/// `(1 - max_dod) · 100 %`, the battery discharges the unmet load, up to its
/// C/2 rate, however small the deficit.
pub proof fn lemma_battery_covers_deficit(d: Dispatcher, r: SensorReadings)
    requires
        r.load_w > r.solar_w,
        r.battery_soc_micro_pct > (1_000_000 - d.spec_max_dod_ppm()) * 100,
        d.spec_battery_capacity_wh() >= 0,
    ensures
        d.planned_battery_w(r) == -min_int(
            r.load_w - r.solar_w,
            d.spec_battery_capacity_wh() / 2,
        ),
        d.spec_battery_capacity_wh() >= 2 ==> d.planned_battery_w(r) < 0,
{
}

/// Law (diesel for large deficits): with load left after solar and the
/// battery, the diesel generator covers it up to its rating when it exceeds
/// the 500 W start threshold, and stays off otherwise.
pub proof fn lemma_diesel_covers_large_deficit(d: Dispatcher, r: SensorReadings)
    requires
        d.spec_battery_capacity_wh() >= 0,
        r.load_w > r.solar_w,
    ensures
        ({
            let deficit = r.load_w - r.solar_w + d.planned_battery_w(r);
            &&& d.planned_battery_w(r) <= 0
            &&& deficit > 500 ==> d.planned_diesel_w(r) == min_int(
                deficit,
                d.spec_diesel_capacity_w(),
            )
            &&& deficit <= 500 ==> d.planned_diesel_w(r) == 0
        }),
{
}

/// Law (shedding is the last resort): load is shed only when solar falls
/// short of the load, the battery is at its depth-of-discharge floor or
/// discharging at its C/2 rate, and the diesel generator runs at its full
/// rating or the deficit left after the battery is within its 500 W start
/// threshold.
pub proof fn lemma_shed_only_when_sources_exhausted(d: Dispatcher, r: SensorReadings)
    requires
        d.spec_battery_capacity_wh() >= 0,
        d.spec_diesel_capacity_w() >= 0,
    ensures
        d.planned_shed_w(r) > 0 ==> {
            &&& r.load_w > r.solar_w
            &&& (r.battery_soc_micro_pct <= (1_000_000 - d.spec_max_dod_ppm()) * 100
                || d.planned_battery_w(r) == -(d.spec_battery_capacity_wh() / 2))
            &&& (d.planned_diesel_w(r) == d.spec_diesel_capacity_w() || r.load_w - r.solar_w
                + d.planned_battery_w(r) <= 500)
        },
{
}

/// Renders `dispatch_reasoning`.
fn dispatch_reasoning_text(solar_w: i64, battery_w: i64, diesel_w: i64, shed_w: i64, soc: i64) -> (s: String)
    ensures
        s@ == dispatch_reasoning(
            solar_w as int,
            battery_w as int,
            diesel_w as int,
            shed_w as int,
            soc as int,
        ),
{
    let mut s = String::new();
    s.append("Rule-based: solar=");
    push_fixed(&mut s, solar_w, 2, 1);
    s.append("kW to load, battery=");
    push_fixed(&mut s, battery_w, 2, 1);
    s.append("kW, diesel=");
    push_fixed(&mut s, diesel_w, 2, 1);
    s.append("kW, shed=");
    push_fixed(&mut s, shed_w, 2, 1);
    s.append("kW (SOC=");
    push_fixed(&mut s, soc, 6, 0);
    s.append("%)");
    assert(s@ =~= dispatch_reasoning(
        solar_w as int,
        battery_w as int,
        diesel_w as int,
        shed_w as int,
        soc as int,
    ));
    s
}

} // verus!
