//! Site configuration sections read by the kernel components, in the
//! fixed-point units of `units`.
use vstd::prelude::*;

verus! {

/// Solar array of the site.
#[derive(Clone, Debug)]
pub struct SolarSection {
    /// Peak capacity (W).
    pub capacity_w: i64,
}

/// Battery bank of the site.
#[derive(Clone, Debug)]
pub struct BatterySection {
    /// Usable capacity (Wh).
    pub capacity_wh: i64,
    /// Maximum depth of discharge (ppm of the capacity).
    pub max_dod_ppm: i64,
}

/// Diesel generator of the site.
#[derive(Clone, Debug)]
pub struct DieselSection {
    /// Rated output (W).
    pub capacity_w: i64,
}

/// Equipment of the site, as the dispatcher needs it.
#[derive(Clone, Debug)]
pub struct SiteConfig {
    pub solar: SolarSection,
    pub battery: BatterySection,
    pub diesel: DieselSection,
}

/// Set-points of the autonomic safety controller.
#[derive(Clone, Debug)]
pub struct AutonomicSection {
    /// Never discharge the battery at or below this state of charge (µ%).
    pub min_soc_micro_pct: i64,
    /// Never charge the battery at or above this state of charge (µ%).
    pub max_soc_micro_pct: i64,
    /// Auto-start the diesel generator at or below this state of charge (µ%).
    pub diesel_start_soc_micro_pct: i64,
    /// Auto-stop the diesel generator at or above this state of charge (µ%).
    pub diesel_stop_soc_micro_pct: i64,
    /// Daily diesel runtime limit (seconds).
    pub max_diesel_secs_per_day: u64,
}

/// Connectivity settings of the site.
#[derive(Clone, Debug)]
pub struct ConnectivitySection {
    /// Host name of the fleet MQTT broker.
    pub mqtt_broker: String,
    /// TCP port of the fleet MQTT broker.
    pub mqtt_port: u16,
}

} // verus!
