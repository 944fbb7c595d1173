//! Autonomic safety controller.
//!
//! The last line of defense before actuation: enforces hard safety
//! constraints on every dispatch decision, overriding the optimizer where
//! necessary to protect equipment and keep a minimum service
//! (observe, compare, act).
use vstd::prelude::*;

use crate::clock::{utc_day, utc_day_of};
use crate::config::AutonomicSection;
use crate::devices::AgentState;
use crate::dispatch::DispatchDecision;
use crate::text::{fixed_text, push_fixed};
use crate::units::min_int;

verus! {

/// Diesel output commanded when the controller auto-starts the generator (W).
pub const AUTO_START_DIESEL_W: i64 = 5_000;

/// Diesel runtime charged for every decision that keeps the generator running
/// (s): one dispatch cycle.
pub const DISPATCH_INTERVAL_SECS: u64 = 5;

/// Text appended to the reasoning of an overridden decision.
pub open spec fn override_note(soc: int) -> Seq<char> {
    " [AUTONOMIC OVERRIDE: soc="@ + fixed_text(soc, 6, 0) + "%]"@
}

/// Safety controller that enforces operational constraints on dispatch
/// decisions:
/// - never discharge the battery at or below the minimum state of charge;
/// - never charge it at or above the maximum state of charge;
/// - auto-start the diesel generator at or below the start threshold;
/// - auto-stop it at or above the stop threshold;
/// - limit the diesel runtime per UTC day; the runtime starts again from zero
///   with the first decision of a later day.
pub struct AutonomicController {
    min_soc_micro_pct: i64,
    max_soc_micro_pct: i64,
    diesel_start_soc_micro_pct: i64,
    diesel_stop_soc_micro_pct: i64,
    max_diesel_secs_per_day: u64,
    /// Accumulated diesel runtime (s) on the day `diesel_day`.
    diesel_secs_today: u64,
    /// UTC day of the last enforced decision; none before the first one.
    diesel_day: Option<i64>,
}

impl AutonomicController {
    /// Minimum state of charge (µ%).
    pub closed spec fn spec_min_soc(&self) -> i64 {
        self.min_soc_micro_pct
    }

    /// Maximum state of charge (µ%).
    pub closed spec fn spec_max_soc(&self) -> i64 {
        self.max_soc_micro_pct
    }

    /// Diesel auto-start threshold (µ%).
    pub closed spec fn spec_diesel_start_soc(&self) -> i64 {
        self.diesel_start_soc_micro_pct
    }

    /// Diesel auto-stop threshold (µ%).
    pub closed spec fn spec_diesel_stop_soc(&self) -> i64 {
        self.diesel_stop_soc_micro_pct
    }

    /// Diesel runtime limit per day (s).
    pub closed spec fn spec_max_diesel_secs(&self) -> u64 {
        self.max_diesel_secs_per_day
    }

    /// Diesel runtime accumulated on the day `spec_diesel_day` (s).
    pub closed spec fn spec_diesel_secs_today(&self) -> u64 {
        self.diesel_secs_today
    }

    /// UTC day of the last enforced decision, if any.
    pub closed spec fn spec_diesel_day(&self) -> Option<i64> {
        self.diesel_day
    }

    /// Whether `today` starts a new runtime day: no decision was enforced yet,
    /// or the last one was on an earlier day.
    pub open spec fn is_new_day(&self, today: int) -> bool {
        match self.spec_diesel_day() {
            None => true,
            Some(day) => today > day,
        }
    }

    /// Diesel runtime already used on the day of a decision made on `today`:
    /// zero on a new day, the accumulated runtime otherwise.
    pub open spec fn runtime_at_start(&self, today: int) -> int {
        if self.is_new_day(today) {
            0
        } else {
            self.spec_diesel_secs_today() as int
        }
    }

    /// Runtime day recorded after a decision made on `today`.
    pub open spec fn day_after(&self, today: int) -> Option<i64> {
        if self.is_new_day(today) {
            Some(today as i64)
        } else {
            self.spec_diesel_day()
        }
    }

    /// Shield 1: a discharge at or below the minimum state of charge is blocked.
    pub open spec fn blocks_discharge(&self, d: DispatchDecision, soc: int) -> bool {
        soc <= self.spec_min_soc() && d.battery_w < 0
    }

    /// Battery power after shield 1.
    pub open spec fn battery_after_discharge_shield(&self, d: DispatchDecision, soc: int) -> int {
        if self.blocks_discharge(d, soc) {
            0
        } else {
            d.battery_w as int
        }
    }

    /// Shield 2: a charge at or above the maximum state of charge is blocked.
    pub open spec fn blocks_charge(&self, d: DispatchDecision, soc: int) -> bool {
        soc >= self.spec_max_soc() && self.battery_after_discharge_shield(d, soc) > 0
    }

    /// Battery power of the enforced decision.
    pub open spec fn enforced_battery_w(&self, d: DispatchDecision, soc: int) -> int {
        if self.blocks_charge(d, soc) {
            0
        } else {
            self.battery_after_discharge_shield(d, soc)
        }
    }

    /// Shield 3 applies: low state of charge and no diesel planned or started.
    pub open spec fn wants_auto_start(&self, d: DispatchDecision, soc: int) -> bool {
        soc <= self.spec_diesel_start_soc() && !d.diesel_start && d.diesel_w == 0
    }

    /// Shield 3 starts the diesel generator: it applies and the runtime used
    /// on the decision's day is below the daily limit.
    pub open spec fn auto_starts(&self, d: DispatchDecision, soc: int, today: int) -> bool {
        self.wants_auto_start(d, soc) && self.runtime_at_start(today)
            < self.spec_max_diesel_secs()
    }

    /// Diesel output after shield 3.
    pub open spec fn diesel_after_auto_start(&self, d: DispatchDecision, soc: int, today: int) -> int {
        if self.auto_starts(d, soc, today) {
            AUTO_START_DIESEL_W as int
        } else {
            d.diesel_w as int
        }
    }

    /// Shield 4 stops the diesel generator: high state of charge, diesel
    /// running and no stop already commanded.
    pub open spec fn auto_stops(&self, d: DispatchDecision, soc: int, today: int) -> bool {
        soc >= self.spec_diesel_stop_soc() && self.diesel_after_auto_start(d, soc, today) > 0
            && !d.diesel_stop
    }

    /// Diesel output after shield 4.
    pub open spec fn diesel_after_auto_stop(&self, d: DispatchDecision, soc: int, today: int) -> int {
        if self.auto_stops(d, soc, today) {
            0
        } else {
            self.diesel_after_auto_start(d, soc, today)
        }
    }

    /// The day's diesel runtime after the decision: one dispatch cycle more
    /// when the diesel still runs after shield 4 (saturating at `u64::MAX`).
    pub open spec fn diesel_secs_after(&self, d: DispatchDecision, soc: int, today: int) -> int {
        if self.diesel_after_auto_stop(d, soc, today) > 0 {
            min_int(self.runtime_at_start(today) + DISPATCH_INTERVAL_SECS, u64::MAX as int)
        } else {
            self.runtime_at_start(today)
        }
    }

    /// Shield 5 stops the diesel generator: the daily runtime limit is
    /// reached with this cycle.
    pub open spec fn limit_reached(&self, d: DispatchDecision, soc: int, today: int) -> bool {
        self.diesel_after_auto_stop(d, soc, today) > 0 && self.diesel_secs_after(d, soc, today)
            >= self.spec_max_diesel_secs()
    }

    /// Diesel output of the enforced decision.
    pub open spec fn enforced_diesel_w(&self, d: DispatchDecision, soc: int, today: int) -> int {
        if self.limit_reached(d, soc, today) {
            0
        } else {
            self.diesel_after_auto_stop(d, soc, today)
        }
    }

    /// Diesel start command of the enforced decision.
    pub open spec fn enforced_diesel_start(&self, d: DispatchDecision, soc: int, today: int) -> bool {
        !self.limit_reached(d, soc, today) && !self.auto_stops(d, soc, today) && (d.diesel_start
            || self.auto_starts(d, soc, today))
    }

    /// Diesel stop command of the enforced decision.
    pub open spec fn enforced_diesel_stop(&self, d: DispatchDecision, soc: int, today: int) -> bool {
        self.limit_reached(d, soc, today) || self.auto_stops(d, soc, today) || d.diesel_stop
    }

    /// Whether any shield changed the decision.
    pub open spec fn overrides(&self, d: DispatchDecision, soc: int, today: int) -> bool {
        self.blocks_discharge(d, soc) || self.blocks_charge(d, soc) || self.auto_starts(
            d,
            soc,
            today,
        ) || self.auto_stops(d, soc, today) || self.limit_reached(d, soc, today)
    }

    /// Create a new autonomic controller from the site's autonomic
    /// configuration, with no diesel runtime accumulated and no day yet.
    pub fn new(config: &AutonomicSection) -> (c: AutonomicController)
        ensures
            c.spec_min_soc() == config.min_soc_micro_pct,
            c.spec_max_soc() == config.max_soc_micro_pct,
            c.spec_diesel_start_soc() == config.diesel_start_soc_micro_pct,
            c.spec_diesel_stop_soc() == config.diesel_stop_soc_micro_pct,
            c.spec_max_diesel_secs() == config.max_diesel_secs_per_day,
            c.spec_diesel_secs_today() == 0,
            c.spec_diesel_day() is None,
    {
        AutonomicController {
            min_soc_micro_pct: config.min_soc_micro_pct,
            max_soc_micro_pct: config.max_soc_micro_pct,
            diesel_start_soc_micro_pct: config.diesel_start_soc_micro_pct,
            diesel_stop_soc_micro_pct: config.diesel_stop_soc_micro_pct,
            max_diesel_secs_per_day: config.max_diesel_secs_per_day,
            diesel_secs_today: 0,
            diesel_day: None,
        }
    }

    /// Diesel runtime accumulated on the last decision's day (s).
    pub fn diesel_secs_today(&self) -> (s: u64)
        ensures
            s == self.spec_diesel_secs_today(),
    {
        self.diesel_secs_today
    }

    /// UTC day of the last enforced decision, if any.
    pub fn diesel_day(&self) -> (day: Option<i64>)
        ensures
            day == self.spec_diesel_day(),
    {
        self.diesel_day
    }

    /// Enforce the safety constraints on a dispatch decision, given the
    /// current agent state, and return the (possibly modified) decision. The
    /// decision's day is the UTC day of the latest readings; on a later day
    /// than the last decision's the runtime starts again from zero (the reset
    /// at midnight). An overridden decision is flagged and its reasoning gets
    /// a note with the state of charge. Every cycle in which the diesel
    /// generator keeps running is charged to the day's runtime.
    pub fn enforce(&mut self, decision: DispatchDecision, state: &AgentState) -> (out: DispatchDecision)
        ensures
            ({
                let soc = state.latest_readings.battery_soc_micro_pct as int;
                let today = utc_day(state.latest_readings.timestamp.spec_secs() as int);
                let c = *old(self);
                &&& out.solar_w == decision.solar_w
                &&& out.load_shed_w == decision.load_shed_w
                &&& out.battery_w == c.enforced_battery_w(decision, soc)
                &&& out.diesel_w == c.enforced_diesel_w(decision, soc, today)
                &&& out.diesel_start == c.enforced_diesel_start(decision, soc, today)
                &&& out.diesel_stop == c.enforced_diesel_stop(decision, soc, today)
                &&& out.overridden == (decision.overridden || c.overrides(decision, soc, today))
                &&& out.reasoning@ == if c.overrides(decision, soc, today) {
                    decision.reasoning@ + override_note(soc)
                } else {
                    decision.reasoning@
                }
                &&& final(self).spec_diesel_secs_today() == c.diesel_secs_after(
                    decision,
                    soc,
                    today,
                )
                &&& final(self).spec_diesel_day() == c.day_after(today)
                &&& final(self).spec_min_soc() == c.spec_min_soc()
                &&& final(self).spec_max_soc() == c.spec_max_soc()
                &&& final(self).spec_diesel_start_soc() == c.spec_diesel_start_soc()
                &&& final(self).spec_diesel_stop_soc() == c.spec_diesel_stop_soc()
                &&& final(self).spec_max_diesel_secs() == c.spec_max_diesel_secs()
            }),
    {
        let ghost input = decision;
        let mut decision = decision;
        let soc = state.latest_readings.battery_soc_micro_pct;
        let mut was_overridden = false;

        // A decision on a later UTC day starts the day's runtime from zero.
        let today = utc_day_of(state.latest_readings.timestamp.secs());
        let new_day = match self.diesel_day {
            None => true,
            Some(day) => today > day,
        };
        if new_day {
            self.diesel_secs_today = 0;
            self.diesel_day = Some(today);
        }

        // Shield 1: minimum state of charge; block discharge.
        if soc <= self.min_soc_micro_pct && decision.battery_w < 0 {
            decision.battery_w = 0;
            was_overridden = true;
        }

        // Shield 2: maximum state of charge; block charge.
        if soc >= self.max_soc_micro_pct && decision.battery_w > 0 {
            decision.battery_w = 0;
            was_overridden = true;
        }

        // Shield 3: auto-start the diesel generator on low state of charge,
        // unless the day's runtime limit is reached.
        if soc <= self.diesel_start_soc_micro_pct && !decision.diesel_start && decision.diesel_w
            == 0 {
            if self.diesel_secs_today < self.max_diesel_secs_per_day {
                decision.diesel_start = true;
                decision.diesel_w = AUTO_START_DIESEL_W;
                was_overridden = true;
            }
        }

        // Shield 4: auto-stop the diesel generator once the charge recovered.
        if soc >= self.diesel_stop_soc_micro_pct && decision.diesel_w > 0 && !decision.diesel_stop {
            decision.diesel_w = 0;
            decision.diesel_stop = true;
            decision.diesel_start = false;
            was_overridden = true;
        }

        // Shield 5: daily diesel runtime limit.
        if decision.diesel_w > 0 {
            self.diesel_secs_today = if self.diesel_secs_today <= u64::MAX - DISPATCH_INTERVAL_SECS {
                self.diesel_secs_today + DISPATCH_INTERVAL_SECS
            } else {
                u64::MAX
            };
            if self.diesel_secs_today >= self.max_diesel_secs_per_day {
                decision.diesel_w = 0;
                decision.diesel_stop = true;
                decision.diesel_start = false;
                was_overridden = true;
            }
        }

        if was_overridden {
            decision.overridden = true;
            decision.reasoning.append(" [AUTONOMIC OVERRIDE: soc=");
            push_fixed(&mut decision.reasoning, soc, 6, 0);
            decision.reasoning.append("%]");
            assert(decision.reasoning@ =~= input.reasoning@ + override_note(soc as int));
        }
        decision
    }
}

/// Law (battery floor): at or below the minimum state of charge the enforced
/// decision never discharges the battery.
pub proof fn lemma_no_discharge_at_min_soc(c: AutonomicController, d: DispatchDecision, soc: int)
    requires
        soc <= c.spec_min_soc(),
    ensures
        c.enforced_battery_w(d, soc) >= 0,
{
}

/// Law (battery ceiling): at or above the maximum state of charge the enforced
/// decision never charges the battery.
pub proof fn lemma_no_charge_at_max_soc(c: AutonomicController, d: DispatchDecision, soc: int)
    requires
        soc >= c.spec_max_soc(),
    ensures
        c.enforced_battery_w(d, soc) <= 0,
{
}

/// Law (battery shields change only what they forbid): the enforced battery
/// command is the decision's own or zero, and it differs from the decision's
/// only for a discharge at or below the minimum state of charge or a charge
/// at or above the maximum; a discharge above the minimum passes unchanged
/// however full the battery is.
pub proof fn lemma_battery_shields_minimal(c: AutonomicController, d: DispatchDecision, soc: int)
    ensures
        c.enforced_battery_w(d, soc) == d.battery_w || c.enforced_battery_w(d, soc) == 0,
        c.enforced_battery_w(d, soc) != d.battery_w ==> (d.battery_w < 0 && soc
            <= c.spec_min_soc()) || (d.battery_w > 0 && soc >= c.spec_max_soc()),
        d.battery_w < 0 && soc > c.spec_min_soc() ==> c.enforced_battery_w(d, soc) == d.battery_w,
        d.battery_w > 0 && soc < c.spec_max_soc() ==> c.enforced_battery_w(d, soc) == d.battery_w,
{
}

/// Law (override only for a reason): a decision is flagged as overridden only
/// when it discharges at or below the minimum state of charge, charges at or
/// above the maximum, runs the diesel generator, or asks for no diesel at or
/// below the auto-start threshold.
pub proof fn lemma_override_has_reason(
    c: AutonomicController,
    d: DispatchDecision,
    soc: int,
    today: int,
)
    ensures
        c.overrides(d, soc, today) ==> {
            ||| d.battery_w < 0 && soc <= c.spec_min_soc()
            ||| d.battery_w > 0 && soc >= c.spec_max_soc()
            ||| d.diesel_w > 0
            ||| soc <= c.spec_diesel_start_soc() && !d.diesel_start && d.diesel_w == 0
        },
{
}

/// Law (daily runtime cap): the enforced decision commands diesel output only
/// while the day's runtime, this cycle included, stays below the daily limit,
/// and no auto-start happens once the day's limit is reached.
pub proof fn lemma_diesel_within_daily_limit(
    c: AutonomicController,
    d: DispatchDecision,
    soc: int,
    today: int,
)
    ensures
        c.enforced_diesel_w(d, soc, today) > 0 ==> c.diesel_secs_after(d, soc, today)
            < c.spec_max_diesel_secs(),
        c.runtime_at_start(today) >= c.spec_max_diesel_secs() ==> !c.auto_starts(d, soc, today),
{
}

/// Law (reset at midnight): a decision on a later UTC day than the last one
/// counts the runtime from zero and records the new day; a decision on the
/// same day keeps counting.
pub proof fn lemma_runtime_resets_on_new_day(c: AutonomicController, today: i64)
    ensures
        c.is_new_day(today as int) ==> c.runtime_at_start(today as int) == 0 && c.day_after(
            today as int,
        ) == Some(today),
        c.spec_diesel_day() == Some(today) ==> c.runtime_at_start(today as int)
            == c.spec_diesel_secs_today() && c.day_after(today as int) == c.spec_diesel_day(),
{
}

/// Law (auto-start after midnight): on a later day than the last decision's,
/// the generator is auto-started again at low state of charge whatever the
/// runtime of the previous day, as long as one cycle stays below the limit.
pub proof fn lemma_auto_start_on_new_day(
    c: AutonomicController,
    d: DispatchDecision,
    soc: int,
    today: int,
)
    requires
        c.is_new_day(today),
        soc <= c.spec_diesel_start_soc(),
        soc < c.spec_diesel_stop_soc(),
        !d.diesel_start,
        d.diesel_w == 0,
        DISPATCH_INTERVAL_SECS < c.spec_max_diesel_secs(),
    ensures
        c.enforced_diesel_w(d, soc, today) == AUTO_START_DIESEL_W,
        c.enforced_diesel_start(d, soc, today),
        c.diesel_secs_after(d, soc, today) == DISPATCH_INTERVAL_SECS,
{
}

/// Law (runtime accounting): within a day the runtime never decreases; it
/// grows by one dispatch cycle (saturating) exactly when the decision still
/// runs the diesel after the start and stop shields, and otherwise stays.
pub proof fn lemma_runtime_accounting(
    c: AutonomicController,
    d: DispatchDecision,
    soc: int,
    today: int,
)
    ensures
        c.diesel_secs_after(d, soc, today) >= c.runtime_at_start(today),
        c.diesel_secs_after(d, soc, today) <= c.runtime_at_start(today) + DISPATCH_INTERVAL_SECS,
        c.diesel_secs_after(d, soc, today) > c.runtime_at_start(today)
            ==> c.diesel_after_auto_stop(d, soc, today) > 0,
        (c.diesel_after_auto_stop(d, soc, today) > 0 && c.runtime_at_start(today) < u64::MAX)
            ==> c.diesel_secs_after(d, soc, today) > c.runtime_at_start(today),
{
}

/// Law (auto-stop): at or above the stop threshold, unless the decision
/// already commands a stop, the enforced decision runs no diesel and commands
/// a stop whenever diesel was planned or auto-started.
pub proof fn lemma_auto_stop_at_high_soc(
    c: AutonomicController,
    d: DispatchDecision,
    soc: int,
    today: int,
)
    requires
        soc >= c.spec_diesel_stop_soc(),
        !d.diesel_stop,
    ensures
        c.enforced_diesel_w(d, soc, today) <= 0,
        c.diesel_after_auto_start(d, soc, today) > 0 ==> c.enforced_diesel_stop(d, soc, today)
            && !c.enforced_diesel_start(d, soc, today),
{
}

/// Law (auto-start): at or below the start threshold and below the stop
/// threshold, a decision without diesel gets the generator started at the
/// default output, as long as this cycle keeps the day's runtime below the
/// daily limit.
pub proof fn lemma_auto_start_at_low_soc(
    c: AutonomicController,
    d: DispatchDecision,
    soc: int,
    today: int,
)
    requires
        soc <= c.spec_diesel_start_soc(),
        soc < c.spec_diesel_stop_soc(),
        !d.diesel_start,
        d.diesel_w == 0,
        c.runtime_at_start(today) + DISPATCH_INTERVAL_SECS < c.spec_max_diesel_secs(),
    ensures
        c.enforced_diesel_w(d, soc, today) == AUTO_START_DIESEL_W,
        c.enforced_diesel_start(d, soc, today),
        c.overrides(d, soc, today),
{
}

/// Law (stable battery command): enforcing again, at the same state of
/// charge, a decision whose battery command was already enforced leaves that
/// command unchanged.
pub proof fn lemma_battery_command_stable(
    c: AutonomicController,
    d: DispatchDecision,
    again: DispatchDecision,
    soc: int,
)
    requires
        again.battery_w == c.enforced_battery_w(d, soc),
    ensures
        c.enforced_battery_w(again, soc) == again.battery_w,
{
}

/// Law (no spurious override): a decision that violates no constraint passes
/// unchanged (apart from the runtime it is charged) and is not flagged.
pub proof fn lemma_safe_decision_passes(
    c: AutonomicController,
    d: DispatchDecision,
    soc: int,
    today: int,
)
    requires
        !c.overrides(d, soc, today),
    ensures
        c.enforced_battery_w(d, soc) == d.battery_w,
        c.enforced_diesel_w(d, soc, today) == d.diesel_w,
        c.enforced_diesel_start(d, soc, today) == d.diesel_start,
        c.enforced_diesel_stop(d, soc, today) == d.diesel_stop,
{
}

} // verus!
