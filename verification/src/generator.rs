//! The price process itself: construction, the verified step rule, the
//! volatility mutator and the price accessor.

use vstd::prelude::*;
use crate::draws::draw_base_volume;
use crate::draws::draw_news_event;
use crate::draws::draw_news_magnitude_ppm;
use crate::draws::draw_unit_ppm;
use crate::model::FLOOR_PRICE;
use crate::model::MAX_PRICE;
use crate::model::MAX_VOLATILITY_PPM;
use crate::model::MEAN_REVERSION_SPEED_PPM;
use crate::model::MIN_BASE_VOLUME;
use crate::model::PPM_SCALE;
use crate::model::ProcessView;
use crate::model::construct_view;
use crate::model::inv;
use crate::model::mean_reversion_ppm;
use crate::model::next_price_of;
use crate::model::random_walk_ppm;
use crate::model::step_total_of;
use crate::model::tdiv;
use crate::model::valid_step_draws;
use crate::model::volume_of;
use crate::model::with_volatility;

verus! {

/// Generates price movements by a random walk with mean reversion, rare news
/// shocks, a hard price floor, and a volume correlated with the move's size.
/// Prices are micro-units of a currency unit; fractions are parts per million.
pub struct PriceGenerator {
    current_price: u64,
    base_price: u64,
    volatility: i64,
    mean_reversion_speed: u64,
}

impl View for PriceGenerator {
    type V = ProcessView;

    closed spec fn view(&self) -> ProcessView {
        ProcessView {
            current_price: self.current_price as int,
            base_price: self.base_price as int,
            volatility: self.volatility as int,
            mean_reversion_speed: self.mean_reversion_speed as int,
        }
    }
}

impl PriceGenerator {
    /// The process is well formed: its state satisfies the model invariant.
    pub open spec fn wf(&self) -> bool {
        inv(self@)
    }

    /// Create a process anchored at `initial_price`, with the given
    /// volatility and the fixed mean-reversion speed.
    pub fn new(initial_price: u64, volatility: i64) -> (r: Self)
        requires
            initial_price <= MAX_PRICE,
            -MAX_VOLATILITY_PPM <= volatility <= MAX_VOLATILITY_PPM,
        ensures
            r.wf(),
            r@ == construct_view(initial_price as int, volatility as int),
    {
        PriceGenerator {
            current_price: initial_price,
            base_price: initial_price,
            volatility,
            mean_reversion_speed: MEAN_REVERSION_SPEED_PPM,
        }
    }

    /// One step of the process from given draws: `random_draw_ppm` is the
    /// uniform draw of the random-walk term, `news_ppm` the news shock (zero
    /// when no event fired), `base_volume` the base-volume draw.  The price
    /// is updated multiplicatively by the total fractional change, clamped
    /// into the representable band, and returned together with the volume.
    pub fn step_with_draws(
        &mut self,
        random_draw_ppm: i64,
        news_ppm: i64,
        base_volume: u64,
    ) -> (r: (u64, u64))
        requires
            old(self).wf(),
            valid_step_draws(random_draw_ppm as int, news_ppm as int, base_volume as int),
        ensures
            final(self).wf(),
            final(self)@.base_price == old(self)@.base_price,
            final(self)@.volatility == old(self)@.volatility,
            final(self)@.mean_reversion_speed == old(self)@.mean_reversion_speed,
            final(self)@.current_price == next_price_of(
                old(self)@.current_price,
                step_total_of(old(self)@, random_draw_ppm as int, news_ppm as int),
            ),
            r.0 == final(self)@.current_price,
            r.1 == volume_of(
                base_volume as int,
                step_total_of(old(self)@, random_draw_ppm as int, news_ppm as int),
            ),
            FLOOR_PRICE <= r.0 <= MAX_PRICE,
            r.1 >= base_volume,
    {
        let ghost v0 = self@;
        let ghost t_spec = step_total_of(v0, random_draw_ppm as int, news_ppm as int);

        // Random-walk term: draw times volatility, truncated to ppm.
        proof {
            assert(-1_000_000_000_000_000_000 <= random_draw_ppm * self.volatility
                <= 1_000_000_000_000_000_000) by (nonlinear_arith)
                requires
                    -1_000_000 <= random_draw_ppm <= 1_000_000,
                    -1_000_000_000_000 <= self.volatility <= 1_000_000_000_000,
            ;
        }
        let walk_prod: i64 = random_draw_ppm * self.volatility;
        let random_walk: i64 = if walk_prod >= 0 {
            ((walk_prod as u64) / 1_000_000) as i64
        } else {
            let mag: u64 = (-walk_prod) as u64;
            -((mag / 1_000_000) as i64)
        };
        proof {
            assert(random_walk == random_walk_ppm(random_draw_ppm as int, v0.volatility));
            assert(-1_000_000_000_000 <= random_walk <= 1_000_000_000_000);
        }

        // Mean-reversion term: price gap times speed, truncated to ppm.
        let diff: i128 = (self.base_price as i128) - (self.current_price as i128);
        let rev_prod: i128 = diff * (self.mean_reversion_speed as i128);
        let mean_rev: i64 = if rev_prod >= 0 {
            ((rev_prod as u128) / 1_000_000) as i64
        } else {
            let mag: u128 = (-rev_prod) as u128;
            -((mag / 1_000_000) as i64)
        };
        proof {
            assert(mean_rev == mean_reversion_ppm(v0.base_price, v0.current_price,
                v0.mean_reversion_speed));
            assert(-10_000_000_000_000 <= mean_rev <= 10_000_000_000_000);
        }

        // Total fractional change of this step, in ppm.
        let total: i64 = random_walk + mean_rev + news_ppm;
        proof {
            assert(total == t_spec);
            assert(-11_000_000_050_000 <= total <= 11_000_000_050_000);
        }

        // Multiplicative price update, with the floor and the ceiling.
        let factor: i64 = 1_000_000 + total;
        let new_price: u64 = if factor <= 0 {
            proof {
                assert(v0.current_price * (PPM_SCALE + t_spec) <= 0) by (nonlinear_arith)
                    requires
                        v0.current_price >= 0,
                        PPM_SCALE + t_spec <= 0,
                ;
                assert(tdiv(v0.current_price * (PPM_SCALE + t_spec), PPM_SCALE as int)
                    <= 0);
            }
            FLOOR_PRICE
        } else {
            proof {
                assert(0 <= v0.current_price * (PPM_SCALE + t_spec)
                    <= 12_000_000_050_000_000_000_000_000_000) by (nonlinear_arith)
                    requires
                        0 <= v0.current_price <= 1_000_000_000_000_000,
                        0 < PPM_SCALE + t_spec <= 12_000_000_050_000,
                ;
            }
            let numer: u128 = (self.current_price as u128) * (factor as u128);
            let raw: u128 = numer / 1_000_000;
            proof {
                assert(raw == tdiv(v0.current_price * (PPM_SCALE + t_spec), PPM_SCALE as int));
            }
            if raw < (FLOOR_PRICE as u128) {
                FLOOR_PRICE
            } else if raw > (MAX_PRICE as u128) {
                MAX_PRICE
            } else {
                raw as u64
            }
        };
        self.current_price = new_price;
        proof {
            assert(new_price == next_price_of(v0.current_price, t_spec));
        }

        // Volume: base draw scaled by one plus ten times the absolute change.
        let total_mag: u64 = if total >= 0 {
            total as u64
        } else {
            (-total) as u64
        };
        let multiplier: u64 = 1_000_000 + 10 * total_mag;
        proof {
            assert(0 <= (base_volume as int) * (multiplier as int)
                <= 111_000_000_000_000_000_000) by (nonlinear_arith)
                requires
                    0 <= base_volume <= 1_000_000,
                    0 <= multiplier <= 111_000_000_000_000,
            ;
        }
        let vnumer: u128 = (base_volume as u128) * (multiplier as u128);
        let volume: u64 = (vnumer / 1_000_000) as u64;
        proof {
            assert(volume == volume_of(base_volume as int, t_spec));
            assert((base_volume as int) * (PPM_SCALE as int)
                <= (base_volume as int) * (multiplier as int)) by (nonlinear_arith)
                requires
                    0 <= base_volume,
                    PPM_SCALE <= multiplier,
            ;
            assert((base_volume as int) * (PPM_SCALE as int) / (PPM_SCALE as int)
                == base_volume as int) by {
                vstd::arithmetic::div_mod::lemma_div_multiples_vanish(
                    base_volume as int, PPM_SCALE as int);
            }
            vstd::arithmetic::div_mod::lemma_div_is_ordered(
                (base_volume as int) * (PPM_SCALE as int),
                (base_volume as int) * (multiplier as int),
                PPM_SCALE as int,
            );
            assert(volume >= base_volume);
        }

        (new_price, volume)
    }

    /// One step of the process from the thread-local random source: the three
    /// draws are taken from their ranges and handed to `step_with_draws`, so
    /// whatever comes back, the new state and the returned pair are the step
    /// rule applied to some draws from those ranges.
    pub fn next_price(&mut self) -> (r: (u64, u64))
        requires
            old(self).wf(),
        ensures
            final(self).wf(),
            final(self)@.base_price == old(self)@.base_price,
            final(self)@.volatility == old(self)@.volatility,
            final(self)@.mean_reversion_speed == old(self)@.mean_reversion_speed,
            r.0 == final(self)@.current_price,
            FLOOR_PRICE <= r.0 <= MAX_PRICE,
            r.1 >= MIN_BASE_VOLUME,
            exists|rd: int, news: int, bv: int|
                valid_step_draws(rd, news, bv)
                && final(self)@.current_price == next_price_of(
                    old(self)@.current_price,
                    step_total_of(old(self)@, rd, news),
                )
                && r.1 == volume_of(bv, step_total_of(old(self)@, rd, news)),
    {
        let random_draw_ppm: i64 = draw_unit_ppm();
        let news_ppm: i64 = if draw_news_event() {
            draw_news_magnitude_ppm()
        } else {
            0i64
        };
        let base_volume: u64 = draw_base_volume();
        let r: (u64, u64) = self.step_with_draws(random_draw_ppm, news_ppm, base_volume);
        proof {
            assert(valid_step_draws(random_draw_ppm as int, news_ppm as int, base_volume as int)
                && final(self)@.current_price == next_price_of(
                    old(self)@.current_price,
                    step_total_of(old(self)@, random_draw_ppm as int, news_ppm as int),
                )
                && r.1 == volume_of(base_volume as int,
                    step_total_of(old(self)@, random_draw_ppm as int, news_ppm as int)));
        }
        r
    }

    /// Replace the stored volatility; the price, the anchor and the reversion
    /// speed are untouched, and the next step uses the new value.
    pub fn set_volatility(&mut self, volatility: i64)
        requires
            old(self).wf(),
            -MAX_VOLATILITY_PPM <= volatility <= MAX_VOLATILITY_PPM,
        ensures
            final(self).wf(),
            final(self)@ == with_volatility(old(self)@, volatility as int),
    {
        self.volatility = volatility;
    }

    /// The latest price, in micro-units.
    pub fn current_price(&self) -> (r: u64)
        ensures
            r == self@.current_price,
    {
        self.current_price
    }
}

} // verus!
