//! An agent-based, discrete-time simulation of the academic publication
//! ecosystem: researchers produce studies whose findings are distorted by
//! sampling noise and selective publication, and the simulation tracks how
//! publication bias shapes the visible scientific record over time.
//!
//! All quantities that the model reasons about are plain integers:
//! probabilities are fixed-point values in parts per million (ppm), and
//! effect sizes are fixed-point values in millionths (micro-units).

use vstd::prelude::*;

mod academia;
mod codec;
mod errors;
mod researcher;
mod rng;
mod study;
mod traits;

pub use academia::Academia;
pub use academia::Summary;
pub use codec::WorldModel;
pub use academia::MAX_ADMISSIONS_PER_STEP;
pub use errors::SimError;
pub use researcher::IdleAction;
pub use researcher::Researcher;
pub use rng::RandomDrawService;
pub use study::ConfirmationStatus;
pub use traits::Agent;
pub use traits::Model;
pub use study::PublicationStatus;
pub use study::Study;
pub use study::StudyType;

verus! {

/// One whole probability, in parts per million: 1_000_000 ppm = certainty.
pub const PPM_SCALE: u32 = 1_000_000;

/// The significance threshold for an effect size, in micro-units (0.05).
pub const SIGNIFICANCE_LEVEL_MICRO: i64 = 50_000;

/// Chance that a null result is published anyway, in ppm (0.009): the
/// file-drawer problem.
pub const PROB_PUBLISH_NULL_PPM: u32 = 9_000;

/// Chance that a confirming repeat study is published, in ppm (0.6).
pub const PROB_PUBLISH_CONFIRMED_PPM: u32 = 600_000;

/// Chance that a disconfirming repeat study is published, in ppm (0.7):
/// deliberately above the confirming rate, because surprising
/// disconfirmations are more publishable.
pub const PROB_PUBLISH_DISCONFIRMED_PPM: u32 = 700_000;

/// Bound on the magnitude of every recorded effect size, in micro-units.
pub const EFFECT_SIZE_MAX_MICRO: i64 = 2_000_000;

/// Tolerance when comparing a repeat study's result against the original's
/// reported effect, in micro-units.
pub const CONFIRMATION_TOLERANCE_MICRO: i64 = 50_000;

/// Chance that an idle researcher who starts no repeat study opens a fresh
/// original study this tick, in ppm. The idle-decision policy is a modeling
/// choice; this constant parameterizes its last branch.
pub const PROB_START_ORIGINAL_PPM: u32 = 500_000;

} // verus!
