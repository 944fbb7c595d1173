use microgrid_kernel::config::{BatterySection, DieselSection, SiteConfig, SolarSection};
use microgrid_kernel::clock::Timestamp;
use microgrid_kernel::devices::{AgentState, SensorReadings};
use microgrid_kernel::dispatch::{DispatchDecision, Dispatcher};
use microgrid_kernel::knowledge::KnowledgeGraph;

fn site(battery_wh: i64, diesel_w: i64) -> SiteConfig {
    SiteConfig {
        solar: SolarSection { capacity_w: 10_000 },
        battery: BatterySection { capacity_wh: battery_wh, max_dod_ppm: 800_000 },
        diesel: DieselSection { capacity_w: diesel_w },
    }
}

fn state(load_w: i64, solar_w: i64, soc_pct: i64) -> AgentState {
    AgentState {
        latest_readings: SensorReadings {
            timestamp: Timestamp::from_unix(1_700_000_000, 0).unwrap(),
            solar_w,
            load_w,
            battery_soc_micro_pct: soc_pct * 1_000_000,
            battery_w: 0,
            diesel_w: 0,
            irradiance_mw_m2: 0,
            temperature_mc: 25_000,
        },
    }
}

fn solve(battery_wh: i64, diesel_w: i64, load_w: i64, solar_w: i64, soc_pct: i64) -> DispatchDecision {
    let kg = KnowledgeGraph::open(":memory:").ok().unwrap();
    Dispatcher::new(&site(battery_wh, diesel_w)).solve(&state(load_w, solar_w, soc_pct), &kg)
}

#[test]
fn default_decision_is_idle() {
    let d = DispatchDecision::default();
    assert_eq!((d.solar_w, d.battery_w, d.diesel_w, d.load_shed_w), (0, 0, 0, 0));
    assert!(!d.diesel_start && !d.diesel_stop && !d.overridden);
    assert_eq!(d.reasoning, "");
}

#[test]
fn surplus_solar_charges_battery() {
    let d = solve(20_000, 15_000, 3_000, 5_000, 50);
    assert_eq!(d.solar_w, 3_000);
    assert_eq!(d.battery_w, 2_000);
    assert_eq!(d.diesel_w, 0);
    assert_eq!(d.load_shed_w, 0);
    assert!(!d.diesel_start);
    assert_eq!(
        d.reasoning,
        "Rule-based: solar=3.0kW to load, battery=2.0kW, diesel=0.0kW, shed=0.0kW (SOC=50%)"
    );
}

#[test]
fn surplus_solar_does_not_charge_nearly_full_battery() {
    let d = solve(20_000, 15_000, 3_000, 5_000, 96);
    assert_eq!(d.solar_w, 3_000);
    assert_eq!(d.battery_w, 0);
}

#[test]
fn battery_covers_deficit() {
    let d = solve(20_000, 15_000, 8_000, 2_000, 50);
    assert_eq!(d.solar_w, 2_000);
    assert_eq!(d.battery_w, -6_000);
    assert_eq!(d.diesel_w, 0);
    assert_eq!(d.load_shed_w, 0);
    assert_eq!(
        d.reasoning,
        "Rule-based: solar=2.0kW to load, battery=-6.0kW, diesel=0.0kW, shed=0.0kW (SOC=50%)"
    );
}

#[test]
fn battery_rate_limit_then_diesel_then_shedding() {
    // C/2 of 4 kWh is 2 kW; diesel is capped at 15 kW; 3 kW remain unmet.
    let d = solve(4_000, 15_000, 20_000, 0, 50);
    assert_eq!(d.solar_w, 0);
    assert_eq!(d.battery_w, -2_000);
    assert_eq!(d.diesel_w, 15_000);
    assert!(d.diesel_start);
    assert_eq!(d.load_shed_w, 3_000);
    assert_eq!(
        d.reasoning,
        "Rule-based: solar=0.0kW to load, battery=-2.0kW, diesel=15.0kW, shed=3.0kW (SOC=50%)"
    );
}

#[test]
fn no_discharge_below_depth_of_discharge_floor() {
    // max DoD 80 % puts the floor at 20 %.
    let d = solve(20_000, 15_000, 600, 0, 10);
    assert_eq!(d.battery_w, 0);
    assert_eq!(d.diesel_w, 600);
    assert!(d.diesel_start);
    assert_eq!(d.load_shed_w, 0);
    let at_floor = solve(20_000, 15_000, 600, 0, 20);
    assert_eq!(at_floor.battery_w, 0);
}

#[test]
fn small_deficit_is_shed_not_dieseled() {
    let d = solve(20_000, 15_000, 300, 0, 10);
    assert_eq!(d.diesel_w, 0);
    assert!(!d.diesel_start);
    assert_eq!(d.load_shed_w, 300);
    let tiny = solve(20_000, 15_000, 5, 0, 10);
    assert_eq!(tiny.load_shed_w, 0);
    let threshold = solve(20_000, 15_000, 500, 0, 10);
    assert_eq!(threshold.diesel_w, 0);
    assert_eq!(threshold.load_shed_w, 500);
}

#[test]
fn reasoning_rounds_half_to_even() {
    let d = solve(20_000, 15_000, 1_250, 2_600, 50);
    // 1.25 kW rounds to 1.2, 1.35 kW to 1.4
    assert_eq!(d.solar_w, 1_250);
    assert_eq!(d.battery_w, 1_350);
    assert!(d.reasoning.starts_with("Rule-based: solar=1.2kW to load, battery=1.4kW"));
}

#[test]
fn power_balance_holds_on_a_grid_of_inputs() {
    for load in [0i64, 5, 300, 800, 4_000, 12_000, 40_000] {
        for solar in [0i64, 1_000, 6_000, 50_000] {
            for soc in [5i64, 20, 50, 96] {
                let d = solve(8_000, 10_000, load, solar, soc);
                let discharge = if d.battery_w < 0 { -d.battery_w } else { 0 };
                let supplied = d.solar_w + discharge + d.diesel_w + d.load_shed_w;
                assert!(load - supplied >= 0 && load - supplied <= 10);
                assert!(d.diesel_w <= 10_000);
                assert!(d.battery_w >= -4_000);
            }
        }
    }
}
