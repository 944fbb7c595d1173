//! Bridge to the Python ML forecasting worker.
//!
//! The worker runs as a subprocess and exchanges JSON over stdin/stdout:
//! the kernel sends `{ "history": [...], "horizon_hours": 24 }` and receives
//! `{ "generation_kw": [...], "demand_kw": [...], "horizon_hours": 24 }`.
//! When the worker is unavailable the kernel falls back to a naive
//! persistence forecast.
use vstd::prelude::*;

use crate::clock::rfc3339_text;
use crate::devices::SensorReadings;

verus! {

/// Hours covered by every forecast that the kernel requests or derives.
pub const FORECAST_HORIZON_HOURS: u64 = 24;

/// A forecast produced by the ML model (or by the persistence fallback).
#[derive(Clone, Debug)]
pub struct Forecast {
    /// Predicted generation for each hour of the horizon (W).
    pub generation_w: Vec<i64>,
    /// Predicted demand for each hour of the horizon (W).
    pub demand_w: Vec<i64>,
    /// Forecast horizon (hours).
    pub horizon_hours: u64,
}

fn zeros(n: usize) -> (v: Vec<i64>)
    ensures
        v@ == Seq::new(n as nat, |i: int| 0i64),
{
    let mut v: Vec<i64> = Vec::new();
    let mut i: usize = 0;
    while i < n
        invariant
            i <= n,
            v@ == Seq::new(i as nat, |k: int| 0i64),
        decreases n - i,
    {
        v.push(0);
        i = i + 1;
        assert(v@ =~= Seq::new(i as nat, |k: int| 0i64));
    }
    v
}

impl Default for Forecast {
    /// A flat zero forecast over 24 hours.
    fn default() -> (f: Forecast)
        ensures
            f.generation_w@ == Seq::new(24, |i: int| 0i64),
            f.demand_w@ == Seq::new(24, |i: int| 0i64),
            f.horizon_hours == 24,
    {
        Forecast {
            generation_w: zeros(24),
            demand_w: zeros(24),
            horizon_hours: FORECAST_HORIZON_HOURS,
        }
    }
}

/// One point of sensor history as sent to the worker.
#[derive(Debug)]
pub struct HistoryPoint {
    /// RFC 3339 time of the reading.
    pub timestamp: String,
    /// Solar generation (W).
    pub solar_w: i64,
    /// Total load (W).
    pub load_w: i64,
    /// Irradiance (mW/m²).
    pub irradiance_mw_m2: i64,
    /// Ambient temperature (m°C).
    pub temperature_mc: i64,
}

impl HistoryPoint {
    /// The history point of `r`, with `timestamp` as its RFC 3339 time.
    pub fn from_readings(r: &SensorReadings, timestamp: String) -> (p: HistoryPoint)
        ensures
            p.timestamp == timestamp,
            p.solar_w == r.solar_w,
            p.load_w == r.load_w,
            p.irradiance_mw_m2 == r.irradiance_mw_m2,
            p.temperature_mc == r.temperature_mc,
    {
        HistoryPoint {
            timestamp,
            solar_w: r.solar_w,
            load_w: r.load_w,
            irradiance_mw_m2: r.irradiance_mw_m2,
            temperature_mc: r.temperature_mc,
        }
    }
}

/// Request sent to the worker: recent history and the wanted horizon.
#[derive(Debug)]
pub struct ForecastRequest {
    /// Recent sensor history, oldest first.
    pub history: Vec<HistoryPoint>,
    /// Requested forecast horizon (hours).
    pub horizon_hours: u64,
}

/// `p` is the history point of `r`.
pub open spec fn is_history_point_of(p: HistoryPoint, r: SensorReadings) -> bool {
    &&& p.timestamp@ == rfc3339_text(r.timestamp.spec_secs(), r.timestamp.spec_nanos())
    &&& p.solar_w == r.solar_w
    &&& p.load_w == r.load_w
    &&& p.irradiance_mw_m2 == r.irradiance_mw_m2
    &&& p.temperature_mc == r.temperature_mc
}

/// First index of the persistence window: the last 24 readings, or all of
/// them when fewer.
pub open spec fn window_start(len: int) -> int {
    if len >= 24 {
        len - 24
    } else {
        0
    }
}

/// Bridge to a Python ML forecasting subprocess: the worker script lives in
/// `model_dir` and is run with `python_bin`.
pub struct MlBridge {
    model_dir: String,
    python_bin: String,
}

impl MlBridge {
    /// Directory of the worker script and models.
    pub closed spec fn spec_model_dir(&self) -> Seq<char> {
        self.model_dir@
    }

    /// Python interpreter that runs the worker.
    pub closed spec fn spec_python_bin(&self) -> Seq<char> {
        self.python_bin@
    }

    /// Create a new ML bridge for `model_dir`. The interpreter is
    /// `python_bin_setting` (the `PYTHON_BIN` environment variable) when given,
    /// otherwise `python3`.
    pub fn new(model_dir: &str, python_bin_setting: Option<String>) -> (b: MlBridge)
        ensures
            b.spec_model_dir() == model_dir@,
            b.spec_python_bin() == match python_bin_setting {
                Some(p) => p@,
                None => "python3"@,
            },
    {
        let python_bin = match python_bin_setting {
            Some(p) => p,
            None => "python3".to_owned(),
        };
        MlBridge { model_dir: model_dir.to_owned(), python_bin }
    }

    /// Directory of the worker script and models.
    pub fn model_dir(&self) -> (d: &str)
        ensures
            d@ == self.spec_model_dir(),
    {
        self.model_dir.as_str()
    }

    /// Python interpreter that runs the worker.
    pub fn python_bin(&self) -> (p: &str)
        ensures
            p@ == self.spec_python_bin(),
    {
        self.python_bin.as_str()
    }

    /// The request sent to the worker for `history`: every reading as a
    /// history point, in order, and a 24-hour horizon.
    pub fn forecast_request(history: &[SensorReadings]) -> (req: ForecastRequest)
        ensures
            req.horizon_hours == FORECAST_HORIZON_HOURS,
            req.history@.len() == history@.len(),
            forall|i: int|
                0 <= i < history@.len() ==> is_history_point_of(
                    #[trigger] req.history@[i],
                    history@[i],
                ),
    {
        let mut points: Vec<HistoryPoint> = Vec::new();
        let mut i: usize = 0;
        while i < history.len()
            invariant
                i <= history@.len(),
                points@.len() == i,
                forall|k: int| 0 <= k < i ==> is_history_point_of(#[trigger] points@[k], history@[k]),
            decreases history@.len() - i,
        {
            let r = &history[i];
            let stamp = r.timestamp.to_rfc3339();
            points.push(HistoryPoint::from_readings(r, stamp));
            i = i + 1;
        }
        ForecastRequest { history: points, horizon_hours: FORECAST_HORIZON_HOURS }
    }

    /// Naive persistence forecast, used when the worker is unavailable: the
    /// next hours look like the most recent ones. The last 24 readings (all of
    /// them when fewer) give the generation and demand, oldest first, and the
    /// horizon is their number; an empty history gives the flat default
    /// forecast.
    pub fn persistence_fallback(&self, history: &[SensorReadings]) -> (f: Forecast)
        ensures
            history@.len() == 0 ==> {
                &&& f.generation_w@ == Seq::new(24, |i: int| 0i64)
                &&& f.demand_w@ == Seq::new(24, |i: int| 0i64)
                &&& f.horizon_hours == 24
            },
            history@.len() > 0 ==> {
                let start = window_start(history@.len() as int);
                let n = history@.len() - start;
                &&& f.horizon_hours == n
                &&& f.generation_w@ == Seq::new(n as nat, |i: int| history@[start + i].solar_w)
                &&& f.demand_w@ == Seq::new(n as nat, |i: int| history@[start + i].load_w)
            },
    {
        if history.len() == 0 {
            return Forecast::default();
        }
        let start: usize = if history.len() >= 24 { history.len() - 24 } else { 0 };
        let ghost n = history@.len() - start;
        let mut generation_w: Vec<i64> = Vec::new();
        let mut demand_w: Vec<i64> = Vec::new();
        let mut i: usize = start;
        while i < history.len()
            invariant
                start <= i <= history@.len(),
                start == window_start(history@.len() as int),
                generation_w@ == Seq::new((i - start) as nat, |k: int| history@[start + k].solar_w),
                demand_w@ == Seq::new((i - start) as nat, |k: int| history@[start + k].load_w),
            decreases history@.len() - i,
        {
            generation_w.push(history[i].solar_w);
            demand_w.push(history[i].load_w);
            i = i + 1;
            assert(generation_w@ =~= Seq::new((i - start) as nat, |k: int| history@[start + k].solar_w));
            assert(demand_w@ =~= Seq::new((i - start) as nat, |k: int| history@[start + k].load_w));
        }
        let horizon_hours = (history.len() - start) as u64;
        Forecast { generation_w, demand_w, horizon_hours }
    }
}

} // verus!
