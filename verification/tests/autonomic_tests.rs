use microgrid_kernel::autonomic::AutonomicController;
use microgrid_kernel::clock::utc_day_of;
use microgrid_kernel::clock::Timestamp;
use microgrid_kernel::config::AutonomicSection;
use microgrid_kernel::devices::{AgentState, SensorReadings};
use microgrid_kernel::dispatch::DispatchDecision;

const PCT: i64 = 1_000_000;

fn controller(max_diesel_secs: u64) -> AutonomicController {
    AutonomicController::new(&AutonomicSection {
        min_soc_micro_pct: 20 * PCT,
        max_soc_micro_pct: 90 * PCT,
        diesel_start_soc_micro_pct: 25 * PCT,
        diesel_stop_soc_micro_pct: 80 * PCT,
        max_diesel_secs_per_day: max_diesel_secs,
    })
}

fn state(soc_micro_pct: i64) -> AgentState {
    AgentState {
        latest_readings: SensorReadings {
            timestamp: Timestamp::from_unix(1_700_000_000, 0).unwrap(),
            solar_w: 0,
            load_w: 0,
            battery_soc_micro_pct: soc_micro_pct,
            battery_w: 0,
            diesel_w: 0,
            irradiance_mw_m2: 0,
            temperature_mc: 25_000,
        },
    }
}

fn decision(battery_w: i64, diesel_w: i64) -> DispatchDecision {
    DispatchDecision {
        solar_w: 1_000,
        battery_w,
        diesel_w,
        load_shed_w: 7,
        diesel_start: diesel_w > 0,
        diesel_stop: false,
        reasoning: "plan".to_string(),
        overridden: false,
    }
}

#[test]
fn new_controller_has_no_runtime() {
    assert_eq!(controller(28_800).diesel_secs_today(), 0);
}

#[test]
fn safe_decision_passes_unchanged() {
    let mut c = controller(28_800);
    let out = c.enforce(decision(-2_000, 0), &state(50 * PCT));
    assert_eq!(out.battery_w, -2_000);
    assert_eq!(out.diesel_w, 0);
    assert_eq!(out.solar_w, 1_000);
    assert_eq!(out.load_shed_w, 7);
    assert!(!out.overridden);
    assert_eq!(out.reasoning, "plan");
    assert_eq!(c.diesel_secs_today(), 0);
}

#[test]
fn discharge_blocked_at_minimum_soc_and_diesel_auto_started() {
    let mut c = controller(28_800);
    let out = c.enforce(decision(-2_000, 0), &state(15 * PCT));
    assert_eq!(out.battery_w, 0);
    assert_eq!(out.diesel_w, 5_000);
    assert!(out.diesel_start);
    assert!(!out.diesel_stop);
    assert!(out.overridden);
    assert_eq!(out.reasoning, "plan [AUTONOMIC OVERRIDE: soc=15%]");
    assert_eq!(c.diesel_secs_today(), 5);
}

#[test]
fn charge_blocked_at_maximum_soc() {
    let mut c = controller(28_800);
    let out = c.enforce(decision(3_000, 0), &state(95 * PCT));
    assert_eq!(out.battery_w, 0);
    assert!(out.overridden);
    assert_eq!(out.reasoning, "plan [AUTONOMIC OVERRIDE: soc=95%]");
}

#[test]
fn diesel_auto_stopped_once_charge_recovered() {
    let mut c = controller(28_800);
    let out = c.enforce(decision(0, 3_000), &state(85 * PCT));
    assert_eq!(out.diesel_w, 0);
    assert!(out.diesel_stop);
    assert!(!out.diesel_start);
    assert!(out.overridden);
    assert_eq!(c.diesel_secs_today(), 0);
}

#[test]
fn diesel_cut_when_daily_limit_reached() {
    let mut c = controller(10);
    let first = c.enforce(decision(0, 3_000), &state(50 * PCT));
    assert_eq!(first.diesel_w, 3_000);
    assert!(!first.overridden);
    assert_eq!(c.diesel_secs_today(), 5);
    let second = c.enforce(decision(0, 3_000), &state(50 * PCT));
    assert_eq!(second.diesel_w, 0);
    assert!(second.diesel_stop);
    assert!(!second.diesel_start);
    assert!(second.overridden);
    assert_eq!(c.diesel_secs_today(), 10);
    assert_eq!(second.reasoning, "plan [AUTONOMIC OVERRIDE: soc=50%]");
}

#[test]
fn auto_start_refused_after_daily_limit() {
    let mut c = controller(0);
    let out = c.enforce(decision(0, 0), &state(10 * PCT));
    assert_eq!(out.diesel_w, 0);
    assert!(!out.diesel_start);
    assert!(!out.overridden);
    assert_eq!(out.reasoning, "plan");
}

#[test]
fn override_note_rounds_soc_half_to_even() {
    let mut c = controller(28_800);
    let out = c.enforce(decision(-1, 0), &state(12 * PCT + PCT / 2));
    assert_eq!(out.reasoning, "plan [AUTONOMIC OVERRIDE: soc=12%]");
    let mut c = controller(28_800);
    let out = c.enforce(decision(-1, 0), &state(13 * PCT + PCT / 2));
    assert_eq!(out.reasoning, "plan [AUTONOMIC OVERRIDE: soc=14%]");
}

#[test]
fn already_overridden_flag_is_kept() {
    let mut c = controller(28_800);
    let mut d = decision(0, 0);
    d.overridden = true;
    let out = c.enforce(d, &state(50 * PCT));
    assert!(out.overridden);
    assert_eq!(out.reasoning, "plan");
}

#[test]
fn gates_hold_for_every_plan() {
    for soc in [0i64, 15, 20, 25, 50, 80, 90, 100] {
        for battery in [-5_000i64, 0, 5_000] {
            for diesel in [0i64, 2_000] {
                let mut c = controller(12);
                for _ in 0..4 {
                    let out = c.enforce(decision(battery, diesel), &state(soc * PCT));
                    if soc <= 20 {
                        assert!(out.battery_w >= 0);
                    }
                    if soc >= 90 {
                        assert!(out.battery_w <= 0);
                    }
                    if out.diesel_w > 0 {
                        assert!(c.diesel_secs_today() < 12);
                    }
                    if soc >= 80 {
                        assert!(out.diesel_w <= 0);
                    }
                }
            }
        }
    }
}

#[test]
fn second_pass_keeps_battery_command() {
    for soc in [10i64, 50, 95] {
        for battery in [-3_000i64, 0, 3_000] {
            let mut c = controller(28_800);
            let once = c.enforce(decision(battery, 0), &state(soc * PCT));
            let mut again = decision(once.battery_w, 0);
            again.reasoning = once.reasoning.clone();
            let twice = c.enforce(again, &state(soc * PCT));
            assert_eq!(twice.battery_w, once.battery_w);
        }
    }
}

fn state_at(soc_micro_pct: i64, secs: i64) -> AgentState {
    let mut s = state(soc_micro_pct);
    s.latest_readings.timestamp = Timestamp::from_unix(secs, 0).unwrap();
    s
}

#[test]
fn daily_limit_resets_at_utc_midnight() {
    let mut c = controller(10);
    let day = 1_700_006_400; // 2023-11-15 00:00:00 UTC
    assert_eq!(c.diesel_day(), None);
    let a = c.enforce(decision(0, 3_000), &state_at(50 * PCT, day + 100));
    assert_eq!(a.diesel_w, 3_000);
    let b = c.enforce(decision(0, 3_000), &state_at(50 * PCT, day + 200));
    assert_eq!(b.diesel_w, 0);
    assert_eq!(c.diesel_secs_today(), 10);
    assert_eq!(c.diesel_day(), Some(day / 86_400));
    // Same day: auto-start refused.
    let refused = c.enforce(decision(0, 0), &state_at(10 * PCT, day + 86_399));
    assert_eq!(refused.diesel_w, 0);
    assert!(!refused.overridden);
    // Next day: the runtime starts from zero and auto-start works again.
    let next = c.enforce(decision(0, 0), &state_at(10 * PCT, day + 86_400));
    assert_eq!(next.diesel_w, 5_000);
    assert!(next.diesel_start);
    assert_eq!(c.diesel_secs_today(), 5);
    assert_eq!(c.diesel_day(), Some(day / 86_400 + 1));
    // A reading from an earlier day does not reset the runtime.
    c.enforce(decision(0, 3_000), &state_at(50 * PCT, day));
    assert_eq!(c.diesel_secs_today(), 10);
    assert_eq!(c.diesel_day(), Some(day / 86_400 + 1));
}

#[test]
fn utc_day_rounds_down() {
    assert_eq!(utc_day_of(0), 0);
    assert_eq!(utc_day_of(86_399), 0);
    assert_eq!(utc_day_of(86_400), 1);
    assert_eq!(utc_day_of(-1), -1);
    assert_eq!(utc_day_of(-86_400), -1);
    assert_eq!(utc_day_of(-86_401), -2);
    assert_eq!(utc_day_of(i64::MIN), -106_751_991_167_301);
}
