//! Device abstraction layer: sensor readings and actuation.
//!
//! The only backend so far is a simulated device that produces realistic
//! sensor values without any hardware attached (useful for tests, CI and
//! shadow mode).
use vstd::prelude::*;

use rand::rngs::ThreadRng;
use rand::Rng;

use crate::clock::Timestamp;
use crate::dispatch::DispatchDecision;
use crate::units::{in_limits, is_in_limits, max_int, FULL_SOC_MICRO_PCT, QUANTITY_LIMIT};

verus! {

/// A snapshot of all sensor values at a given instant.
#[derive(Clone, Debug)]
pub struct SensorReadings {
    /// UTC time of the reading.
    pub timestamp: Timestamp,
    /// Solar generation (W).
    pub solar_w: i64,
    /// Total load demand (W).
    pub load_w: i64,
    /// Battery state of charge (µ%, 0 to 100 %).
    pub battery_soc_micro_pct: i64,
    /// Battery power flow (W); positive when charging, negative when
    /// discharging.
    pub battery_w: i64,
    /// Diesel generator output (W).
    pub diesel_w: i64,
    /// Global horizontal irradiance (mW/m²).
    pub irradiance_mw_m2: i64,
    /// Ambient temperature (m°C).
    pub temperature_mc: i64,
}

impl SensorReadings {
    /// Every quantity lies within the kernel's working range.
    pub open spec fn within_limits(&self) -> bool {
        &&& in_limits(self.solar_w as int)
        &&& in_limits(self.load_w as int)
        &&& in_limits(self.battery_soc_micro_pct as int)
        &&& in_limits(self.battery_w as int)
        &&& in_limits(self.diesel_w as int)
        &&& in_limits(self.irradiance_mw_m2 as int)
        &&& in_limits(self.temperature_mc as int)
    }

    /// Whether every quantity lies within the kernel's working range.
    pub fn check_limits(&self) -> (b: bool)
        ensures
            b == self.within_limits(),
    {
        is_in_limits(self.solar_w) && is_in_limits(self.load_w) && is_in_limits(
            self.battery_soc_micro_pct,
        ) && is_in_limits(self.battery_w) && is_in_limits(self.diesel_w) && is_in_limits(
            self.irradiance_mw_m2,
        ) && is_in_limits(self.temperature_mc)
    }
}

impl Default for SensorReadings {
    /// Readings taken now (a time after the epoch) with no generation or load, the battery half full
    /// and 25 °C.
    fn default() -> (r: SensorReadings)
        ensures
            r.timestamp.spec_secs() >= 0,
            r.timestamp.spec_nanos() < 1_000_000_000,
            r.solar_w == 0,
            r.load_w == 0,
            r.battery_soc_micro_pct == FULL_SOC_MICRO_PCT / 2,
            r.battery_w == 0,
            r.diesel_w == 0,
            r.irradiance_mw_m2 == 0,
            r.temperature_mc == 25_000,
    {
        SensorReadings {
            timestamp: Timestamp::now(),
            solar_w: 0,
            load_w: 0,
            battery_soc_micro_pct: FULL_SOC_MICRO_PCT / 2,
            battery_w: 0,
            diesel_w: 0,
            irradiance_mw_m2: 0,
            temperature_mc: 25_000,
        }
    }
}

/// The state of the agent that the control components read.
pub struct AgentState {
    /// The most recent sensor snapshot.
    pub latest_readings: SensorReadings,
}

// ---------------------------------------------------------------------------
// Simulated device: sinusoidal solar, noisy load
// ---------------------------------------------------------------------------

/// Hour of the day of a Unix time, as `secs % 86400 / 3600` in Rust's
/// truncating arithmetic (negative before the epoch).
pub open spec fn hour_of_day(secs: int) -> int {
    if secs >= 0 {
        (secs % 86400) / 3600
    } else {
        -(((-secs) % 86400) / 3600)
    }
}

/// `sin(k·π/12)` in ppm, rounded to the nearest unit, for `k` in `0..=12`.
pub open spec fn sine_twelfth_ppm(k: int) -> int {
    if k == 1 || k == 11 {
        258_819
    } else if k == 2 || k == 10 {
        500_000
    } else if k == 3 || k == 9 {
        707_107
    } else if k == 4 || k == 8 {
        866_025
    } else if k == 5 || k == 7 {
        965_926
    } else if k == 6 {
        1_000_000
    } else {
        0
    }
}

/// Relative solar output (ppm) in a given hour: a sine arch from 6:00 to
/// 18:00 peaking at noon, zero at night.
pub open spec fn solar_factor_ppm(hour: int) -> int {
    if 6 <= hour <= 18 {
        sine_twelfth_ppm(hour - 6)
    } else {
        0
    }
}

/// Expected load (W) in a given hour: 130 % of the base load from 7:00 to
/// 22:59, 70 % at night, rounded down.
pub open spec fn expected_load_w(base_load_w: int, hour: int) -> int {
    if 7 <= hour <= 22 {
        base_load_w * 13 / 10
    } else {
        base_load_w * 7 / 10
    }
}

/// Simulated load (W) in a given hour with `noise` added, never negative.
pub open spec fn noisy_load_w(base_load_w: int, hour: int, noise: int) -> int {
    max_int(expected_load_w(base_load_w, hour) + noise, 0)
}

/// Simulated temperature (m°C) in a given hour with `noise` added.
pub open spec fn noisy_temperature_mc(hour: int, noise: int) -> int {
    simulated_temperature_mc(hour) + noise
}

/// Simulated solar output (W) in a given hour, rounded down.
pub open spec fn simulated_solar_w(capacity_w: int, hour: int) -> int {
    capacity_w * solar_factor_ppm(hour) / 1_000_000
}

/// Simulated irradiance (mW/m²) in a given hour: 1000 W/m² at full output.
pub open spec fn simulated_irradiance_mw_m2(hour: int) -> int {
    solar_factor_ppm(hour)
}

/// Simulated temperature (m°C) in a given hour before noise: 25 °C plus up to
/// 8 °C with the sun, rounded down.
pub open spec fn simulated_temperature_mc(hour: int) -> int {
    25_000 + solar_factor_ppm(hour) * 8 / 1000
}

/// State of charge after one simulated actuation: the battery power in watts
/// moves the charge by as many millionths of a percent, clamped to 0..=100 %.
pub open spec fn soc_after_actuation(soc: int, battery_w: int) -> int {
    let next = soc + battery_w;
    if next < 0 {
        0
    } else if next > FULL_SOC_MICRO_PCT {
        FULL_SOC_MICRO_PCT as int
    } else {
        next
    }
}

/// Law (simulated charge bounds): one simulated actuation keeps the state of
/// charge within 0..=100 %, and within that range moves it by exactly the
/// battery power.
pub proof fn lemma_actuation_keeps_soc_in_range(soc: int, battery_w: int)
    ensures
        0 <= soc_after_actuation(soc, battery_w) <= FULL_SOC_MICRO_PCT,
        0 <= soc + battery_w <= FULL_SOC_MICRO_PCT ==> soc_after_actuation(soc, battery_w) == soc
            + battery_w,
{
}

/// Law (solar curve): the simulated array produces nothing before 6:00 or
/// after 18:00, its relative output never exceeds the noon peak, and it is
/// symmetric around noon.
pub proof fn lemma_solar_curve(hour: int)
    ensures
        (hour < 6 || hour > 18) ==> solar_factor_ppm(hour) == 0,
        0 <= solar_factor_ppm(hour) <= solar_factor_ppm(12),
        solar_factor_ppm(12) == 1_000_000,
        0 <= hour <= 24 ==> solar_factor_ppm(hour) == solar_factor_ppm(24 - hour),
{
}

/// Law (rising morning, falling afternoon): the relative solar output strictly
/// increases hour by hour from 6:00 to noon and strictly decreases from noon
/// to 18:00.
pub proof fn lemma_solar_curve_monotone(h1: int, h2: int)
    requires
        h1 < h2,
    ensures
        6 <= h1 && h2 <= 12 ==> solar_factor_ppm(h1) < solar_factor_ppm(h2),
        12 <= h1 && h2 <= 18 ==> solar_factor_ppm(h1) > solar_factor_ppm(h2),
{
}

/// Law (the curve is a sine): writing `f(k)` for the relative output `k`
/// hours after 6:00, the values satisfy `sin² + cos² = 1`, with the cosine at
/// `k` the sine at `6 - k`, and `sin 2x = 2 sin x cos x`, each within the
/// error of rounding to whole ppm (half a ppm per value).
pub proof fn lemma_solar_curve_is_sine(k: int)
    requires
        0 <= k <= 6,
    ensures
        ({
            let s = solar_factor_ppm(6 + k);
            let c = solar_factor_ppm(12 - k);
            let err = s * s + c * c - 1_000_000_000_000;
            -(s + c) <= err <= s + c
        }),
        2 * k <= 6 ==> ({
            let s = solar_factor_ppm(6 + k);
            let c = solar_factor_ppm(12 - k);
            let s2 = solar_factor_ppm(6 + 2 * k);
            let err = s2 * 1_000_000 - 2 * s * c;
            -(500_000 + s + c + 1) <= err <= 500_000 + s + c + 1
        }),
{
    assert(k == 0 || k == 1 || k == 2 || k == 3 || k == 4 || k == 5 || k == 6);
}

fn hour_of_day_exec(secs: i64) -> (h: i64)
    ensures
        h == hour_of_day(secs as int),
        -23 <= h <= 23,
{
    if secs >= 0 {
        (secs % 86400) / 3600
    } else {
        let a: i128 = -(secs as i128);
        let h = (a % 86400) / 3600;
        -(h as i64)
    }
}

fn solar_factor_exec(hour: i64) -> (f: i64)
    ensures
        f == solar_factor_ppm(hour as int),
        0 <= f <= 1_000_000,
{
    if hour < 6 || hour > 18 {
        0
    } else {
        let k = hour - 6;
        if k == 1 || k == 11 {
            258_819
        } else if k == 2 || k == 10 {
            500_000
        } else if k == 3 || k == 9 {
            707_107
        } else if k == 4 || k == 8 {
            866_025
        } else if k == 5 || k == 7 {
            965_926
        } else if k == 6 {
            1_000_000
        } else {
            0
        }
    }
}

#[verifier::external_type_specification]
#[verifier::external_body]
pub struct ExThreadRng(rand::rngs::ThreadRng);

/// Calls `rand::thread_rng()`; nothing is stated of the generator.
#[verifier::external_body]
fn new_rng() -> ThreadRng {
    rand::thread_rng()
}

/// Calls `Rng::gen_range(lo..hi)` on the thread generator, which samples the
/// half-open range uniformly and panics on an empty range (excluded here).
/// Which value comes out is not stated, only that it lies in the range.
#[verifier::external_body]
fn random_in_range(rng: &mut ThreadRng, lo: i64, hi: i64) -> (r: i64)
    requires
        lo < hi,
    ensures
        lo <= r < hi,
{
    rng.gen_range(lo..hi)
}

/// A simulated device: sinusoidal solar output, a noisy daily load pattern
/// and a battery whose charge follows the actuated battery power.
struct SimulatedDevice {
    solar_capacity_w: i64,
    base_load_w: i64,
    battery_soc_micro_pct: i64,
}

impl SimulatedDevice {
    #[verifier::type_invariant]
    spec fn well_formed(self) -> bool {
        &&& 0 <= self.solar_capacity_w <= QUANTITY_LIMIT
        &&& 0 <= self.base_load_w <= QUANTITY_LIMIT
        &&& 0 <= self.battery_soc_micro_pct <= FULL_SOC_MICRO_PCT
    }

    /// A simulated device with the given array and base load and a half-full
    /// battery.
    fn new(solar_capacity_w: i64, base_load_w: i64) -> (d: SimulatedDevice)
        requires
            0 <= solar_capacity_w <= QUANTITY_LIMIT,
            0 <= base_load_w <= QUANTITY_LIMIT,
        ensures
            d.solar_capacity_w == solar_capacity_w,
            d.base_load_w == base_load_w,
            d.battery_soc_micro_pct == FULL_SOC_MICRO_PCT / 2,
    {
        SimulatedDevice { solar_capacity_w, base_load_w, battery_soc_micro_pct: FULL_SOC_MICRO_PCT / 2 }
    }
}

/// Central registry of all devices at a site: reads sensors and dispatches
/// actuation commands. Only the simulated backend exists so far.
pub struct DeviceRegistry {
    device: SimulatedDevice,
}

impl DeviceRegistry {
    /// Peak solar capacity of the simulated array (W).
    pub closed spec fn spec_solar_capacity_w(&self) -> int {
        self.device.solar_capacity_w as int
    }

    /// Base load of the simulated site (W).
    pub closed spec fn spec_base_load_w(&self) -> int {
        self.device.base_load_w as int
    }

    /// State of charge of the simulated battery (µ%).
    pub closed spec fn spec_battery_soc(&self) -> int {
        self.device.battery_soc_micro_pct as int
    }

    /// Build the device registry for the site configured in `config_dir`.
    /// Real device discovery does not exist yet, so with or without
    /// `simulate` the registry holds a simulated 10 kWp array with a 3 kW base
    /// load and a half-full battery.
    pub fn from_config(config_dir: &str, simulate: bool) -> (r: DeviceRegistry)
        ensures
            r.spec_solar_capacity_w() == 10_000,
            r.spec_base_load_w() == 3_000,
            r.spec_battery_soc() == FULL_SOC_MICRO_PCT / 2,
    {
        DeviceRegistry { device: SimulatedDevice::new(10_000, 3_000) }
    }

    /// The readings the simulated device gives at `now`, with `load_noise_w`
    /// added to the load and `temperature_noise_mc` to the temperature.
    pub fn readings_at(&self, now: Timestamp, load_noise_w: i64, temperature_noise_mc: i64) -> (r:
        SensorReadings)
        requires
            in_limits(load_noise_w as int),
            in_limits(temperature_noise_mc as int),
        ensures
            r.timestamp == now,
            r.solar_w == simulated_solar_w(
                self.spec_solar_capacity_w(),
                hour_of_day(now.spec_secs() as int),
            ),
            r.load_w == noisy_load_w(
                self.spec_base_load_w(),
                hour_of_day(now.spec_secs() as int),
                load_noise_w as int,
            ),
            r.battery_soc_micro_pct == self.spec_battery_soc(),
            r.battery_w == 0,
            r.diesel_w == 0,
            r.irradiance_mw_m2 == simulated_irradiance_mw_m2(hour_of_day(now.spec_secs() as int)),
            r.temperature_mc == noisy_temperature_mc(
                hour_of_day(now.spec_secs() as int),
                temperature_noise_mc as int,
            ),
    {
        proof {
            use_type_invariant(&self.device);
        }
        let hour = hour_of_day_exec(now.secs());
        let factor = solar_factor_exec(hour);
        let solar_w = self.device.solar_capacity_w * factor / 1_000_000;
        assert(self.device.solar_capacity_w * factor <= QUANTITY_LIMIT * 1_000_000) by (nonlinear_arith)
            requires
                0 <= self.device.solar_capacity_w <= QUANTITY_LIMIT,
                0 <= factor <= 1_000_000,
        ;
        assert(self.device.solar_capacity_w * factor >= 0) by (nonlinear_arith)
            requires
                0 <= self.device.solar_capacity_w,
                0 <= factor,
        ;
        let expected = if 7 <= hour && hour <= 22 {
            self.device.base_load_w * 13 / 10
        } else {
            self.device.base_load_w * 7 / 10
        };
        let noisy = expected + load_noise_w;
        let load_w = if noisy > 0 { noisy } else { 0 };
        SensorReadings {
            timestamp: now,
            solar_w,
            load_w,
            battery_soc_micro_pct: self.device.battery_soc_micro_pct,
            battery_w: 0,
            diesel_w: 0,
            irradiance_mw_m2: factor,
            temperature_mc: 25_000 + factor * 8 / 1000 + temperature_noise_mc,
        }
    }

    /// Read sensor values from all registered devices: the simulated readings
    /// at the current time, with a uniform load noise in [-100 W, 100 W) and a
    /// uniform temperature noise in [-1 °C, 1 °C).
    pub fn read_all(&self) -> (r: SensorReadings)
        ensures
            r.timestamp.spec_secs() >= 0,
            r.timestamp.spec_nanos() < 1_000_000_000,
            r.solar_w == simulated_solar_w(
                self.spec_solar_capacity_w(),
                hour_of_day(r.timestamp.spec_secs() as int),
            ),
            exists|noise: int|
                -100 <= noise < 100 && r.load_w == #[trigger] noisy_load_w(
                    self.spec_base_load_w(),
                    hour_of_day(r.timestamp.spec_secs() as int),
                    noise,
                ),
            r.battery_soc_micro_pct == self.spec_battery_soc(),
            r.battery_w == 0,
            r.diesel_w == 0,
            r.irradiance_mw_m2 == simulated_irradiance_mw_m2(
                hour_of_day(r.timestamp.spec_secs() as int),
            ),
            exists|noise: int|
                -1000 <= noise < 1000 && r.temperature_mc == #[trigger] noisy_temperature_mc(
                    hour_of_day(r.timestamp.spec_secs() as int),
                    noise,
                ),
    {
        let now = Timestamp::now();
        let mut rng = new_rng();
        let load_noise_w = random_in_range(&mut rng, -100, 100);
        let temperature_noise_mc = random_in_range(&mut rng, -1000, 1000);
        let r = self.readings_at(now, load_noise_w, temperature_noise_mc);
        assert(r.load_w == noisy_load_w(
            self.spec_base_load_w(),
            hour_of_day(r.timestamp.spec_secs() as int),
            load_noise_w as int,
        ));
        assert(r.temperature_mc == noisy_temperature_mc(
            hour_of_day(r.timestamp.spec_secs() as int),
            temperature_noise_mc as int,
        ));
        r
    }

    /// Send an actuation command to the device: the simulated battery's state
    /// of charge moves by the commanded battery power, clamped to 0..=100 %.
    pub fn actuate(&mut self, decision: &DispatchDecision)
        ensures
            final(self).spec_solar_capacity_w() == old(self).spec_solar_capacity_w(),
            final(self).spec_base_load_w() == old(self).spec_base_load_w(),
            final(self).spec_battery_soc() == soc_after_actuation(
                old(self).spec_battery_soc(),
                decision.battery_w as int,
            ),
    {
        proof {
            use_type_invariant(&self.device);
        }
        let soc = self.device.battery_soc_micro_pct;
        let delta = decision.battery_w;
        let clamped = if delta > FULL_SOC_MICRO_PCT {
            FULL_SOC_MICRO_PCT
        } else if delta < -FULL_SOC_MICRO_PCT {
            0
        } else {
            let next = soc + delta;
            if next < 0 {
                0
            } else if next > FULL_SOC_MICRO_PCT {
                FULL_SOC_MICRO_PCT
            } else {
                next
            }
        };
        self.device.battery_soc_micro_pct = clamped;
    }
}

} // verus!
