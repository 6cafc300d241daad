//! The Random Draw Service: the single stateful source of pseudo-randomness
//! for every stochastic decision in the model.
//!
//! The service is seedable, so identical seeds reproduce identical simulation
//! trajectories; it is passed explicitly into every operation that draws,
//! never reached through hidden global state. Probabilities are fixed-point
//! values in parts per million (`PPM_SCALE` = one whole).

use vstd::prelude::*;

use crate::errors::SimError;
use crate::PPM_SCALE;

verus! {

#[verifier::external_type_specification]
#[verifier::external_body]
pub struct ExStdRng(rand::rngs::StdRng);

/// Relies on rand_core's `SeedableRng::seed_from_u64` (through
/// `rand::rngs::StdRng`): builds a generator deterministically from the seed
/// and never panics.
#[verifier::external_body]
fn seeded_std_rng(seed: u64) -> rand::rngs::StdRng {
    <rand::rngs::StdRng as rand::SeedableRng>::seed_from_u64(seed)
}

/// Relies on `rand::RngExt::random_range` over an inclusive integer range:
/// the sample lies in `[lo, hi]`; the call panics only on an empty range,
/// which the precondition rules out.
#[verifier::external_body]
fn draw_inclusive(rng: &mut rand::rngs::StdRng, lo: u64, hi: u64) -> (r: u64)
    requires
        lo <= hi,
    ensures
        lo <= r <= hi,
{
    rand::RngExt::random_range(rng, lo..=hi)
}

/// A seedable pseudo-random source offering uniform-integer and Bernoulli
/// draws. Each draw advances the internal generator state, so two draws with
/// equal arguments may differ; every contract here states only what holds of
/// every possible outcome.
pub struct RandomDrawService {
    rng: rand::rngs::StdRng,
}

impl RandomDrawService {
    /// Builds a service whose whole trajectory is determined by `seed`.
    pub fn new(seed: u64) -> RandomDrawService {
        RandomDrawService { rng: seeded_std_rng(seed) }
    }

    /// A uniform draw from the inclusive range `[min, max]`.
    pub fn uniform_int(&mut self, min: i64, max: i64) -> (r: Result<i64, SimError>)
        ensures
            min > max ==> r == Result::<i64, SimError>::Err(SimError::InvalidParameter),
            min <= max ==> (r matches Ok(v) && min <= v <= max),
    {
        if min > max {
            return Err(SimError::InvalidParameter);
        }
        let span: u64 = (max as i128 - min as i128) as u64;
        let off: u64 = draw_inclusive(&mut self.rng, 0, span);
        let v: i64 = (min as i128 + off as i128) as i64;
        Ok(v)
    }

    /// A uniform draw from the inclusive range `[min, max]` of `u32`.
    pub fn uniform_u32(&mut self, min: u32, max: u32) -> (r: Result<u32, SimError>)
        ensures
            min > max ==> r == Result::<u32, SimError>::Err(SimError::InvalidParameter),
            min <= max ==> (r matches Ok(v) && min <= v <= max),
    {
        if min > max {
            return Err(SimError::InvalidParameter);
        }
        let v: u64 = draw_inclusive(&mut self.rng, min as u64, max as u64);
        Ok(v as u32)
    }

    /// A uniform draw of a probability, in ppm: anywhere in `[0, PPM_SCALE]`.
    pub fn uniform_ppm(&mut self) -> (r: u32)
        ensures
            r <= PPM_SCALE,
    {
        let v: u64 = draw_inclusive(&mut self.rng, 0, PPM_SCALE as u64);
        v as u32
    }

    /// A Bernoulli draw: `true` with probability `p_ppm / PPM_SCALE`.
    ///
    /// A probability above one whole is rejected; the edge probabilities are
    /// exact: zero never yields `true`, one whole always does.
    pub fn bernoulli(&mut self, p_ppm: u32) -> (r: Result<bool, SimError>)
        ensures
            p_ppm > PPM_SCALE ==> r == Result::<bool, SimError>::Err(SimError::InvalidParameter),
            p_ppm <= PPM_SCALE ==> r is Ok,
            p_ppm == 0 ==> r == Result::<bool, SimError>::Ok(false),
            p_ppm == PPM_SCALE ==> r == Result::<bool, SimError>::Ok(true),
    {
        if p_ppm > PPM_SCALE {
            return Err(SimError::InvalidParameter);
        }
        let u: u64 = draw_inclusive(&mut self.rng, 0, (PPM_SCALE - 1) as u64);
        Ok((u as u32) < p_ppm)
    }
}

} // verus!
