//! Fixed-point units shared by the whole kernel.
//!
//! * power: watts (`_w`), signed; battery power is positive when charging;
//! * energy: watt-hours (`_wh`);
//! * state of charge: millionths of a percent (`_micro_pct`), so that
//!   100 % is `100_000_000`;
//! * fractions such as depth of discharge: parts per million (`_ppm`);
//! * irradiance: milliwatts per square metre (`_mw_m2`);
//! * temperature: thousandths of a degree Celsius (`_mc`);
//! * durations: seconds.
use vstd::prelude::*;

verus! {

/// Largest magnitude of any configured or measured quantity. It keeps every
/// intermediate sum and product of the kernel inside `i64`.
pub const QUANTITY_LIMIT: i64 = 1_000_000_000_000;

/// One hundred percent state of charge, in millionths of a percent.
pub const FULL_SOC_MICRO_PCT: i64 = 100_000_000;

/// One, in parts per million.
pub const ONE_PPM: i64 = 1_000_000;

/// `x` is a quantity within the kernel's working range.
pub open spec fn in_limits(x: int) -> bool {
    -QUANTITY_LIMIT <= x <= QUANTITY_LIMIT
}

/// Whether `x` is within the kernel's working range.
pub fn is_in_limits(x: i64) -> (b: bool)
    ensures
        b == in_limits(x as int),
{
    -QUANTITY_LIMIT <= x && x <= QUANTITY_LIMIT
}

/// The smaller of two integers.
pub open spec fn min_int(a: int, b: int) -> int {
    if a <= b { a } else { b }
}

/// The larger of two integers.
pub open spec fn max_int(a: int, b: int) -> int {
    if a >= b { a } else { b }
}

/// The smaller of two `i64` values.
pub fn min_i64(a: i64, b: i64) -> (r: i64)
    ensures
        r == min_int(a as int, b as int),
{
    if a <= b { a } else { b }
}

} // verus!
