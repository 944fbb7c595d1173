use microgrid_kernel::clock::Timestamp;
use microgrid_kernel::devices::{DeviceRegistry, SensorReadings};
use microgrid_kernel::dispatch::DispatchDecision;

fn at(secs: i64) -> Timestamp {
    Timestamp::from_unix(secs, 0).unwrap()
}

fn battery_command(battery_w: i64) -> DispatchDecision {
    let mut d = DispatchDecision::default();
    d.battery_w = battery_w;
    d
}

#[test]
fn default_readings() {
    let r = SensorReadings::default();
    assert_eq!(r.solar_w, 0);
    assert_eq!(r.load_w, 0);
    assert_eq!(r.battery_soc_micro_pct, 50_000_000);
    assert_eq!(r.battery_w, 0);
    assert_eq!(r.diesel_w, 0);
    assert_eq!(r.irradiance_mw_m2, 0);
    assert_eq!(r.temperature_mc, 25_000);
    assert!(r.timestamp.secs() > 1_600_000_000);
}

#[test]
fn registry_from_config_is_simulated() {
    let reg = DeviceRegistry::from_config("/etc/microgrid", false);
    let r = reg.readings_at(at(12 * 3600), 0, 0);
    assert_eq!(r.battery_soc_micro_pct, 50_000_000);
    let reg2 = DeviceRegistry::from_config("/etc/microgrid", true);
    let r2 = reg2.readings_at(at(12 * 3600), 0, 0);
    assert_eq!(r.solar_w, r2.solar_w);
}

#[test]
fn simulated_noon_readings() {
    let reg = DeviceRegistry::from_config("cfg", true);
    let r = reg.readings_at(at(86_400 * 3 + 12 * 3600 + 59), 40, -300);
    assert_eq!(r.timestamp.secs(), 86_400 * 3 + 12 * 3600 + 59);
    assert_eq!(r.solar_w, 10_000);
    assert_eq!(r.irradiance_mw_m2, 1_000_000);
    assert_eq!(r.load_w, 3_940);
    assert_eq!(r.temperature_mc, 25_000 + 8_000 - 300);
    assert_eq!(r.battery_w, 0);
    assert_eq!(r.diesel_w, 0);
}

#[test]
fn simulated_morning_and_night_readings() {
    let reg = DeviceRegistry::from_config("cfg", true);
    let seven = reg.readings_at(at(7 * 3600), 0, 0);
    assert_eq!(seven.solar_w, 2_588);
    assert_eq!(seven.irradiance_mw_m2, 258_819);
    assert_eq!(seven.load_w, 3_900);
    assert_eq!(seven.temperature_mc, 25_000 + 2_070);
    let night = reg.readings_at(at(3 * 3600), -100, 0);
    assert_eq!(night.solar_w, 0);
    assert_eq!(night.irradiance_mw_m2, 0);
    assert_eq!(night.load_w, 2_000);
    assert_eq!(night.temperature_mc, 25_000);
    let six = reg.readings_at(at(6 * 3600), 0, 0);
    assert_eq!(six.solar_w, 0);
    assert_eq!(six.load_w, 2_100);
    let late = reg.readings_at(at(22 * 3600 + 1800), 0, 0);
    assert_eq!(late.load_w, 3_900);
    let eleven_pm = reg.readings_at(at(23 * 3600), 0, 0);
    assert_eq!(eleven_pm.load_w, 2_100);
}

#[test]
fn simulated_load_never_negative() {
    let reg = DeviceRegistry::from_config("cfg", true);
    let r = reg.readings_at(at(0), -10_000, 0);
    assert_eq!(r.load_w, 0);
}

#[test]
fn readings_before_epoch_are_dark() {
    let reg = DeviceRegistry::from_config("cfg", true);
    let r = reg.readings_at(at(-12 * 3600), 0, 0);
    assert_eq!(r.solar_w, 0);
    assert_eq!(r.load_w, 2_100);
}

#[test]
fn read_all_stays_within_noise_bounds() {
    let reg = DeviceRegistry::from_config("cfg", true);
    for _ in 0..50 {
        let r = reg.read_all();
        let exact = reg.readings_at(r.timestamp, 0, 0);
        assert_eq!(r.solar_w, exact.solar_w);
        assert!(r.load_w >= exact.load_w - 100 && r.load_w < exact.load_w + 100);
        assert!(r.temperature_mc >= exact.temperature_mc - 1000);
        assert!(r.temperature_mc < exact.temperature_mc + 1000);
        assert_eq!(r.battery_soc_micro_pct, 50_000_000);
    }
}

#[test]
fn actuation_moves_simulated_charge() {
    let mut reg = DeviceRegistry::from_config("cfg", true);
    reg.actuate(&battery_command(2_000));
    assert_eq!(reg.readings_at(at(0), 0, 0).battery_soc_micro_pct, 50_002_000);
    reg.actuate(&battery_command(-5_000));
    assert_eq!(reg.readings_at(at(0), 0, 0).battery_soc_micro_pct, 49_997_000);
}

#[test]
fn actuation_clamps_simulated_charge() {
    let mut reg = DeviceRegistry::from_config("cfg", true);
    reg.actuate(&battery_command(i64::MAX));
    assert_eq!(reg.readings_at(at(0), 0, 0).battery_soc_micro_pct, 100_000_000);
    reg.actuate(&battery_command(-60_000_000));
    assert_eq!(reg.readings_at(at(0), 0, 0).battery_soc_micro_pct, 40_000_000);
    reg.actuate(&battery_command(i64::MIN));
    assert_eq!(reg.readings_at(at(0), 0, 0).battery_soc_micro_pct, 0);
}

#[test]
fn solar_curve_is_symmetric_around_noon() {
    let reg = DeviceRegistry::from_config("cfg", true);
    for h in 0..=12 {
        let morning = reg.readings_at(at(h * 3600), 0, 0);
        let evening = reg.readings_at(at((24 - h) % 24 * 3600), 0, 0);
        if h != 0 {
            assert_eq!(morning.irradiance_mw_m2, evening.irradiance_mw_m2);
        }
        assert!(morning.solar_w <= 10_000);
    }
}
