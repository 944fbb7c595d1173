use microgrid_kernel::clock::Timestamp;
use microgrid_kernel::devices::SensorReadings;
use microgrid_kernel::ml_bridge::{Forecast, MlBridge};

fn reading(i: i64) -> SensorReadings {
    SensorReadings {
        timestamp: Timestamp::from_unix(1_431_648_000 + 3_600 * i, 0).unwrap(),
        solar_w: 100 * i,
        load_w: 1_000 + i,
        battery_soc_micro_pct: 50_000_000,
        battery_w: 0,
        diesel_w: 0,
        irradiance_mw_m2: 7 * i,
        temperature_mc: 20_000 + i,
    }
}

fn history(n: i64) -> Vec<SensorReadings> {
    (0..n).map(reading).collect()
}

#[test]
fn default_forecast_is_flat_zero_day() {
    let f = Forecast::default();
    assert_eq!(f.generation_w, vec![0; 24]);
    assert_eq!(f.demand_w, vec![0; 24]);
    assert_eq!(f.horizon_hours, 24);
}

#[test]
fn bridge_uses_configured_interpreter() {
    let b = MlBridge::new("/opt/models", None);
    assert_eq!(b.model_dir(), "/opt/models");
    assert_eq!(b.python_bin(), "python3");
    let c = MlBridge::new("m", Some("/usr/bin/python3.11".to_string()));
    assert_eq!(c.python_bin(), "/usr/bin/python3.11");
}

#[test]
fn fallback_with_empty_history_is_default() {
    let b = MlBridge::new("m", None);
    let f = b.persistence_fallback(&[]);
    assert_eq!(f.generation_w, vec![0; 24]);
    assert_eq!(f.demand_w, vec![0; 24]);
    assert_eq!(f.horizon_hours, 24);
}

#[test]
fn fallback_with_short_history_repeats_all_of_it() {
    let b = MlBridge::new("m", None);
    let f = b.persistence_fallback(&history(5));
    assert_eq!(f.generation_w, vec![0, 100, 200, 300, 400]);
    assert_eq!(f.demand_w, vec![1_000, 1_001, 1_002, 1_003, 1_004]);
    assert_eq!(f.horizon_hours, 5);
}

#[test]
fn fallback_with_long_history_repeats_last_day() {
    let b = MlBridge::new("m", None);
    let f = b.persistence_fallback(&history(30));
    assert_eq!(f.horizon_hours, 24);
    assert_eq!(f.generation_w, (6..30).map(|i| 100 * i).collect::<Vec<i64>>());
    assert_eq!(f.demand_w, (6..30).map(|i| 1_000 + i).collect::<Vec<i64>>());
    let g = b.persistence_fallback(&history(24));
    assert_eq!(g.generation_w.len(), 24);
    assert_eq!(g.generation_w[0], 0);
}

#[test]
fn forecast_request_carries_history() {
    let req = MlBridge::forecast_request(&history(3));
    assert_eq!(req.horizon_hours, 24);
    assert_eq!(req.history.len(), 3);
    assert_eq!(req.history[0].timestamp, "2015-05-15T00:00:00+00:00");
    assert_eq!(req.history[2].timestamp, "2015-05-15T02:00:00+00:00");
    assert_eq!(req.history[2].solar_w, 200);
    assert_eq!(req.history[2].load_w, 1_002);
    assert_eq!(req.history[2].irradiance_mw_m2, 14);
    assert_eq!(req.history[2].temperature_mc, 20_002);
    assert!(MlBridge::forecast_request(&[]).history.is_empty());
}
