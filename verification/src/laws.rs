//! The laws of the process, stated over the model and proved once for all
//! inputs: output bounds of a step, the direction of the mean-reversion pull,
//! the immediate effect of a volatility update, the reported initial price,
//! and the monotone link between change magnitude and volume.

use vstd::prelude::*;
use vstd::arithmetic::div_mod::lemma_div_is_ordered;
use vstd::arithmetic::div_mod::lemma_div_multiples_vanish;
use vstd::arithmetic::div_mod::lemma_div_plus_one;
use vstd::math::abs;
use crate::model::FLOOR_PRICE;
use crate::model::MAX_PRICE;
use crate::model::MEAN_REVERSION_SPEED_PPM;
use crate::model::MIN_BASE_VOLUME;
use crate::model::PPM_SCALE;
use crate::model::ProcessView;
use crate::model::construct_view;
use crate::model::mean_reversion_ppm;
use crate::model::next_price_of;
use crate::model::random_walk_ppm;
use crate::model::step_total_of;
use crate::model::tdiv;
use crate::model::total_change_ppm;
use crate::model::volume_of;
use crate::model::with_volatility;

verus! {

/// The magnitude of a truncating division by the ppm scale is the divided
/// magnitude, and its sign follows the dividend's.
proof fn lemma_tdiv_ppm_abs(a: int)
    ensures
        abs(tdiv(a, PPM_SCALE as int)) == (abs(a) as int) / (PPM_SCALE as int),
        a >= 0 ==> tdiv(a, PPM_SCALE as int) >= 0,
        a <= 0 ==> tdiv(a, PPM_SCALE as int) <= 0,
{
}

/// Every step's outputs are bounded: whatever the total change, the next
/// price lies between the floor and the ceiling, and the volume is at least
/// the base-volume draw — in particular strictly positive.
pub proof fn lemma_step_outputs_bounded(current: int, total: int, base_volume: int)
    requires
        0 <= current,
        MIN_BASE_VOLUME <= base_volume,
    ensures
        FLOOR_PRICE <= next_price_of(current, total) <= MAX_PRICE,
        volume_of(base_volume, total) >= base_volume,
        volume_of(base_volume, total) > 0,
{
    let mult = PPM_SCALE + 10 * abs(total);
    assert(base_volume * (PPM_SCALE as int) <= base_volume * mult) by (nonlinear_arith)
        requires
            0 <= base_volume,
            PPM_SCALE <= mult,
    ;
    lemma_div_multiples_vanish(base_volume, PPM_SCALE as int);
    lemma_div_is_ordered(base_volume * (PPM_SCALE as int), base_volume * mult,
        PPM_SCALE as int);
}

/// The mean-reversion term never pushes the price away from its anchor: it
/// is nonnegative below the base, nonpositive above it, zero at it; and at
/// the fixed speed a gap of at least 100 micro-units yields a strict pull.
pub proof fn lemma_mean_reversion_pulls_toward_base(base: int, current: int, speed: int)
    requires
        speed >= 0,
    ensures
        current <= base ==> mean_reversion_ppm(base, current, speed) >= 0,
        current >= base ==> mean_reversion_ppm(base, current, speed) <= 0,
        current == base ==> mean_reversion_ppm(base, current, speed) == 0,
        speed == MEAN_REVERSION_SPEED_PPM && base - current >= 100
            ==> mean_reversion_ppm(base, current, speed) >= 1,
        speed == MEAN_REVERSION_SPEED_PPM && current - base >= 100
            ==> mean_reversion_ppm(base, current, speed) <= -1,
{
    let gap_scaled = (base - current) * speed;
    assert(base - current >= 0 ==> (base - current) * speed >= 0) by (nonlinear_arith)
        requires
            speed >= 0,
    ;
    assert(base - current <= 0 ==> (base - current) * speed <= 0) by (nonlinear_arith)
        requires
            speed >= 0,
    ;
    assert(base - current >= 100 && speed == 10_000
        ==> (base - current) * speed >= 1_000_000) by (nonlinear_arith);
    assert(base - current <= -100 && speed == 10_000
        ==> (base - current) * speed <= -1_000_000) by (nonlinear_arith);
    lemma_tdiv_ppm_abs(gap_scaled);
    lemma_div_multiples_vanish(1, PPM_SCALE as int);
    if gap_scaled >= 1_000_000 {
        lemma_div_is_ordered(1_000_000, gap_scaled, PPM_SCALE as int);
    }
    if gap_scaled <= -1_000_000 {
        lemma_div_is_ordered(1_000_000, -gap_scaled, PPM_SCALE as int);
    }
}

/// With the random walk and the news shock silent (both draws zero), a step
/// moves the price weakly toward its anchor: upward when below the base,
/// downward when above it and the floor.
pub proof fn lemma_reversion_only_step_direction(base: int, current: int, volatility: int)
    requires
        0 <= current <= MAX_PRICE,
    ensures
        current <= base ==> next_price_of(
            current,
            total_change_ppm(0, volatility, base, current, MEAN_REVERSION_SPEED_PPM as int, 0),
        ) >= current,
        FLOOR_PRICE <= current && current >= base ==> next_price_of(
            current,
            total_change_ppm(0, volatility, base, current, MEAN_REVERSION_SPEED_PPM as int, 0),
        ) <= current,
{
    let rev = mean_reversion_ppm(base, current, MEAN_REVERSION_SPEED_PPM as int);
    lemma_mean_reversion_pulls_toward_base(base, current, MEAN_REVERSION_SPEED_PPM as int);
    let factor = PPM_SCALE + rev;
    if current <= base {
        assert(current * (PPM_SCALE as int) <= current * factor) by (nonlinear_arith)
            requires
                0 <= current,
                PPM_SCALE <= factor,
        ;
        lemma_div_multiples_vanish(current, PPM_SCALE as int);
        lemma_div_is_ordered(current * (PPM_SCALE as int), current * factor,
            PPM_SCALE as int);
    } else if FLOOR_PRICE <= current {
        if factor <= 0 {
            assert(current * factor <= 0) by (nonlinear_arith)
                requires
                    0 <= current,
                    factor <= 0,
            ;
        } else {
            assert(current * factor <= current * (PPM_SCALE as int)) by (nonlinear_arith)
                requires
                    0 <= current,
                    0 < factor <= PPM_SCALE,
            ;
            lemma_div_multiples_vanish(current, PPM_SCALE as int);
            lemma_div_is_ordered(current * factor, current * (PPM_SCALE as int),
                PPM_SCALE as int);
        }
    }
}

/// A volatility update takes effect on the very next step: after replacing
/// the volatility, the step's total change takes its random-walk term from
/// the new value, while the mean-reversion term and the news shock are
/// untouched — the previously stored volatility plays no part.
pub proof fn lemma_set_volatility_effective(v: ProcessView, new_vol: int, r: int, news: int)
    ensures
        step_total_of(with_volatility(v, new_vol), r, news)
            == random_walk_ppm(r, new_vol)
                + mean_reversion_ppm(v.base_price, v.current_price, v.mean_reversion_speed)
                + news,
        step_total_of(with_volatility(v, new_vol), r, news) - step_total_of(v, r, news)
            == random_walk_ppm(r, new_vol) - random_walk_ppm(r, v.volatility),
{
}

/// A larger volatility magnifies the random-walk term: for the same draw,
/// the term's magnitude grows monotonically with the volatility.
pub proof fn lemma_walk_magnitude_monotone(r: int, vol1: int, vol2: int)
    requires
        0 <= vol1 <= vol2,
    ensures
        abs(random_walk_ppm(r, vol1)) <= abs(random_walk_ppm(r, vol2)),
{
    assert(abs(r * vol1) <= abs(r * vol2)) by (nonlinear_arith)
        requires
            0 <= vol1 <= vol2,
    ;
    lemma_tdiv_ppm_abs(r * vol1);
    lemma_tdiv_ppm_abs(r * vol2);
    lemma_div_is_ordered(abs(r * vol1) as int, abs(r * vol2) as int, PPM_SCALE as int);
}

/// Right after construction, the reported price and the anchor are exactly
/// the initial price.
pub proof fn lemma_initial_price_reported(initial: int, volatility: int)
    ensures
        construct_view(initial, volatility).current_price == initial,
        construct_view(initial, volatility).base_price == initial,
{
}

/// With the base-volume draw held fixed, the step with the larger absolute
/// total change reports strictly more volume.
pub proof fn lemma_volume_monotone_in_change(base_volume: int, t1: int, t2: int)
    requires
        MIN_BASE_VOLUME <= base_volume,
        abs(t1) < abs(t2),
    ensures
        volume_of(base_volume, t1) < volume_of(base_volume, t2),
{
    let m1 = PPM_SCALE + 10 * abs(t1);
    let m2 = PPM_SCALE + 10 * abs(t2);
    assert(base_volume * m1 + PPM_SCALE <= base_volume * m2) by (nonlinear_arith)
        requires
            MIN_BASE_VOLUME <= base_volume,
            m1 + 10 <= m2,
            PPM_SCALE <= MIN_BASE_VOLUME * 10,
    ;
    lemma_div_plus_one(base_volume * m1, PPM_SCALE as int);
    lemma_div_is_ordered(base_volume * m1 + PPM_SCALE, base_volume * m2,
        PPM_SCALE as int);
}

} // verus!
