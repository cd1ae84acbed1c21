//! Random draws for one step of the process, taken from the thread-local
//! generator of `rand`.  Each wrapper states only the range that the drawn
//! value falls in; nothing is assumed about which value comes back.

use vstd::prelude::*;
use crate::model::MAX_BASE_VOLUME;
use crate::model::MIN_BASE_VOLUME;
use crate::model::NEWS_MAGNITUDE_PPM;
use crate::model::PPM_SCALE;

verus! {

/// Relies on `rand::Rng::gen_range` over `-1_000_000..1_000_000`: the sampled
/// value lies in the given half-open range.
#[verifier::external_body]
pub(crate) fn draw_unit_ppm() -> (r: i64)
    ensures
        -(PPM_SCALE as int) <= r < PPM_SCALE,
{
    let mut rng = rand::thread_rng();
    rand::Rng::gen_range(&mut rng, -1_000_000i64..1_000_000i64)
}

/// Relies on `rand::Rng::gen_ratio` with numerator 1 and denominator 100: it
/// returns a Bernoulli draw, true with probability 1/100.  Nothing is claimed
/// of the outcome.
#[verifier::external_body]
pub(crate) fn draw_news_event() -> (r: bool) {
    let mut rng = rand::thread_rng();
    rand::Rng::gen_ratio(&mut rng, 1, 100)
}

/// Relies on `rand::Rng::gen_range` over `-50_000..50_000`: the sampled value
/// lies in the given half-open range.
#[verifier::external_body]
pub(crate) fn draw_news_magnitude_ppm() -> (r: i64)
    ensures
        -NEWS_MAGNITUDE_PPM <= r < NEWS_MAGNITUDE_PPM,
{
    let mut rng = rand::thread_rng();
    rand::Rng::gen_range(&mut rng, -50_000i64..50_000i64)
}

/// Relies on `rand::Rng::gen_range` over `100_000..1_000_000`: the sampled
/// value lies in the given half-open range.
#[verifier::external_body]
pub(crate) fn draw_base_volume() -> (r: u64)
    ensures
        MIN_BASE_VOLUME <= r < MAX_BASE_VOLUME,
{
    let mut rng = rand::thread_rng();
    rand::Rng::gen_range(&mut rng, 100_000u64..1_000_000u64)
}

} // verus!
