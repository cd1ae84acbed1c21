//! Mathematical model of the price process.
//!
//! Prices are fixed-point integers in micro-units (`PRICE_SCALE` micro-units
//! per currency unit) and dimensionless fractions are integers in parts per
//! million (`PPM_SCALE` parts per whole).  Every product of two fractional
//! quantities is divided by `PPM_SCALE` with truncation toward zero, which is
//! what the executable code computes on unsigned magnitudes.

use vstd::prelude::*;
use vstd::math::abs;

verus! {

/// Micro-units per whole currency unit.
pub const PRICE_SCALE: u64 = 1_000_000;

/// Parts per million in a whole (a fraction of 1.0).
pub const PPM_SCALE: u64 = 1_000_000;

/// Hard price floor: 0.01 currency units, in micro-units.
pub const FLOOR_PRICE: u64 = 10_000;

/// Largest representable price, in micro-units (one billion currency units).
/// A step whose raw result would exceed it saturates here, so that every
/// price fits comfortably in the integer arithmetic of a step.
pub const MAX_PRICE: u64 = 1_000_000_000_000_000;

/// Fraction of the gap to the base price pulled back per step: 0.01, in ppm.
pub const MEAN_REVERSION_SPEED_PPM: u64 = 10_000;

/// Magnitude bound of a news shock: 0.05, in ppm.
pub const NEWS_MAGNITUDE_PPM: i64 = 50_000;

/// Largest volatility magnitude the process accepts, in ppm (a factor of one
/// million); keeps the random-walk term within the step's integer bounds.
pub const MAX_VOLATILITY_PPM: i64 = 1_000_000_000_000;

/// Smallest base-volume draw, in volume units.
pub const MIN_BASE_VOLUME: u64 = 100_000;

/// One past the largest base-volume draw, in volume units.
pub const MAX_BASE_VOLUME: u64 = 1_000_000;

/// Division truncated toward zero, as the executable code computes it on
/// magnitudes (for `a >= 0` it coincides with Euclidean division).
pub open spec fn tdiv(a: int, d: int) -> int {
    if a >= 0 {
        a / d
    } else {
        -((-a) / d)
    }
}

/// The state of a price process: latest price and immutable anchor in
/// micro-units, volatility and reversion speed in ppm.
pub struct ProcessView {
    pub current_price: int,
    pub base_price: int,
    pub volatility: int,
    pub mean_reversion_speed: int,
}

/// Well-formed process state: prices within the representable band, the
/// volatility within its bound, and the reversion speed at its fixed value.
pub open spec fn inv(v: ProcessView) -> bool {
    &&& 0 <= v.current_price <= MAX_PRICE
    &&& 0 <= v.base_price <= MAX_PRICE
    &&& -MAX_VOLATILITY_PPM <= v.volatility <= MAX_VOLATILITY_PPM
    &&& v.mean_reversion_speed == MEAN_REVERSION_SPEED_PPM
}

/// The state a process holds right after construction: price and anchor both
/// at the initial price, the given volatility, the fixed reversion speed.
pub open spec fn construct_view(initial_price: int, volatility: int) -> ProcessView {
    ProcessView {
        current_price: initial_price,
        base_price: initial_price,
        volatility: volatility,
        mean_reversion_speed: MEAN_REVERSION_SPEED_PPM as int,
    }
}

/// Random-walk term of a step: the uniform draw `r` (in ppm of the unit
/// interval) scaled by the volatility, in ppm.
pub open spec fn random_walk_ppm(r: int, volatility: int) -> int {
    tdiv(r * volatility, PPM_SCALE as int)
}

/// Mean-reversion term of a step: the price gap to the anchor (micro-units)
/// times the reversion speed, read as a fraction in ppm.
pub open spec fn mean_reversion_ppm(base: int, current: int, speed: int) -> int {
    tdiv((base - current) * speed, PPM_SCALE as int)
}

/// Total fractional change of one step, in ppm: random walk plus mean
/// reversion plus the news shock (zero when no news event fires).
pub open spec fn total_change_ppm(
    r: int,
    volatility: int,
    base: int,
    current: int,
    speed: int,
    news: int,
) -> int {
    random_walk_ppm(r, volatility) + mean_reversion_ppm(base, current, speed) + news
}

/// Clamp a raw price into the representable band: the hard floor below, the
/// saturation ceiling above.
pub open spec fn clamp_price(p: int) -> int {
    if p < FLOOR_PRICE {
        FLOOR_PRICE as int
    } else if p > MAX_PRICE {
        MAX_PRICE as int
    } else {
        p
    }
}

/// The price after one step: the multiplicative update
/// `current * (1 + total_change)` carried out in ppm with truncation, then
/// clamped into the representable band.
pub open spec fn next_price_of(current: int, total: int) -> int {
    clamp_price(tdiv(current * (PPM_SCALE + total), PPM_SCALE as int))
}

/// The volume of one step: the base draw scaled by `1 + 10 * |total_change|`,
/// carried out in ppm with truncation.
pub open spec fn volume_of(base_volume: int, total: int) -> int {
    (base_volume * (PPM_SCALE + 10 * abs(total))) / (PPM_SCALE as int)
}

/// Total change of one step taken from a process state and the two random
/// fraction draws.
pub open spec fn step_total_of(v: ProcessView, r: int, news: int) -> int {
    total_change_ppm(r, v.volatility, v.base_price, v.current_price, v.mean_reversion_speed, news)
}

/// The state `set_volatility` leaves behind: only the volatility changes.
pub open spec fn with_volatility(v: ProcessView, volatility: int) -> ProcessView {
    ProcessView { volatility: volatility, ..v }
}

/// The ranges the three random draws of a step are taken from.
pub open spec fn valid_step_draws(r: int, news: int, base_volume: int) -> bool {
    &&& -(PPM_SCALE as int) <= r < PPM_SCALE
    &&& -NEWS_MAGNITUDE_PPM <= news < NEWS_MAGNITUDE_PPM
    &&& MIN_BASE_VOLUME <= base_volume < MAX_BASE_VOLUME
}

} // verus!
