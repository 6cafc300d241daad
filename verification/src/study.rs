//! A single research output: its effect sizes, its type, and its
//! publication / confirmation lifecycle, including the publication-bias
//! policy that decides whether the written-up study enters the record.

use vstd::prelude::*;

use crate::errors::SimError;
use crate::rng::RandomDrawService;
use crate::CONFIRMATION_TOLERANCE_MICRO;
use crate::EFFECT_SIZE_MAX_MICRO;
use crate::PPM_SCALE;
use crate::PROB_PUBLISH_CONFIRMED_PPM;
use crate::PROB_PUBLISH_DISCONFIRMED_PPM;
use crate::PROB_PUBLISH_NULL_PPM;
use crate::SIGNIFICANCE_LEVEL_MICRO;

verus! {

#[derive(Clone, Copy, Debug, PartialEq, Eq, Structural)]
pub enum StudyType {
    Original,
    Reproduction,
    Replication,
}

/// The publication lifecycle of a study: it starts `Pending` and moves at
/// most once, to `Published` or `Unpublished`, never back.
#[derive(Clone, Copy, Debug, PartialEq, Eq, Structural)]
pub enum PublicationStatus {
    Pending,
    Published,
    Unpublished,
}

/// Whether a repeat study's finding agrees with the original's.
#[derive(Clone, Copy, Debug, PartialEq, Eq, Structural)]
pub enum ConfirmationStatus {
    Confirmed,
    Disconfirmed,
}

/// A single study. Effect sizes are fixed-point micro-units; `id`,
/// `start_time`, `study_type` and `researcher_id` are fixed at creation.
#[derive(Clone, Copy, Debug, PartialEq, Eq)]
pub struct Study {
    pub id: u32,
    pub start_time: u32,
    pub study_type: StudyType,
    pub researcher_id: u32,
    pub true_effect_size: i64,
    pub sampled_effect_size: i64,
    pub observed_effect_size: i64,
    pub reported_effect_size: i64,
    pub duration_days: u32,
    pub publication_status: PublicationStatus,
    pub original_study_id: Option<u32>,
    pub confirmation_status: Option<ConfirmationStatus>,
}

/// An effect size beyond the significance threshold, in either direction.
pub open spec fn spec_is_significant(e: i64) -> bool {
    e > SIGNIFICANCE_LEVEL_MICRO || e < -SIGNIFICANCE_LEVEL_MICRO
}

/// The confirmation policy, as a pure function of the repeat study's sampled
/// effect and the original study's reported effect: the repeat confirms the
/// original when the two values agree within tolerance, or when both are
/// significant in the same direction.
pub open spec fn spec_confirmation(repeat_sampled: i64, original_reported: i64) -> ConfirmationStatus {
    if (-CONFIRMATION_TOLERANCE_MICRO <= repeat_sampled - original_reported <= CONFIRMATION_TOLERANCE_MICRO)
        || (spec_is_significant(repeat_sampled) && spec_is_significant(original_reported)
            && ((repeat_sampled > 0) == (original_reported > 0))) {
        ConfirmationStatus::Confirmed
    } else {
        ConfirmationStatus::Disconfirmed
    }
}

/// The two studies agree on every field except `publication_status`.
pub open spec fn same_but_publication(s0: Study, s1: Study) -> bool {
    &&& s1.id == s0.id
    &&& s1.start_time == s0.start_time
    &&& s1.study_type == s0.study_type
    &&& s1.researcher_id == s0.researcher_id
    &&& s1.true_effect_size == s0.true_effect_size
    &&& s1.sampled_effect_size == s0.sampled_effect_size
    &&& s1.observed_effect_size == s0.observed_effect_size
    &&& s1.reported_effect_size == s0.reported_effect_size
    &&& s1.duration_days == s0.duration_days
    &&& s1.original_study_id == s0.original_study_id
    &&& s1.confirmation_status == s0.confirmation_status
}

/// How a study may lawfully change across one simulation step: identity and
/// creation-time fields are immutable; once the publication decision is made
/// the study is frozen entirely; a confirmation outcome, once set, never
/// changes.
pub open spec fn study_evolves(s0: Study, s1: Study) -> bool {
    &&& s1.id == s0.id
    &&& s1.start_time == s0.start_time
    &&& s1.study_type == s0.study_type
    &&& s1.researcher_id == s0.researcher_id
    &&& s1.true_effect_size == s0.true_effect_size
    &&& s1.sampled_effect_size == s0.sampled_effect_size
    &&& s1.duration_days == s0.duration_days
    &&& s1.original_study_id == s0.original_study_id
    &&& (s0.publication_status != PublicationStatus::Pending ==> s1 == s0)
    &&& (s0.confirmation_status is Some ==> s1.confirmation_status == s0.confirmation_status)
}

/// The publication lifecycle is monotonic: across any lawful evolution of a
/// study, a status other than `Pending` never changes again, and a study
/// never returns to `Pending`.
pub proof fn lemma_publication_monotonic(s0: Study, s1: Study)
    requires
        study_evolves(s0, s1),
    ensures
        s0.publication_status != PublicationStatus::Pending ==> s1.publication_status
            == s0.publication_status,
        s1.publication_status == PublicationStatus::Pending ==> s0.publication_status
            == PublicationStatus::Pending,
{
}

impl Study {
    /// A repeat study: a reproduction or a replication of an original.
    pub open spec fn is_repeat(self) -> bool {
        self.study_type != StudyType::Original
    }

    /// Well-formedness of a single study in isolation: bounded effect sizes,
    /// a positive duration, a back-reference exactly for repeat studies, a
    /// confirmation outcome only for repeat studies, and one that is resolved
    /// no later than the publication decision.
    pub open spec fn wf(self) -> bool {
        &&& -EFFECT_SIZE_MAX_MICRO <= self.true_effect_size <= EFFECT_SIZE_MAX_MICRO
        &&& -EFFECT_SIZE_MAX_MICRO <= self.sampled_effect_size <= EFFECT_SIZE_MAX_MICRO
        &&& -EFFECT_SIZE_MAX_MICRO <= self.observed_effect_size <= EFFECT_SIZE_MAX_MICRO
        &&& -EFFECT_SIZE_MAX_MICRO <= self.reported_effect_size <= EFFECT_SIZE_MAX_MICRO
        &&& self.duration_days >= 1
        &&& (!self.is_repeat() ==> self.original_study_id is None && self.confirmation_status is None)
        &&& (self.is_repeat() ==> self.original_study_id is Some)
        &&& (self.is_repeat() && self.publication_status != PublicationStatus::Pending
            ==> self.confirmation_status is Some)
    }

    /// Resolves this repeat study's confirmation outcome against the study it
    /// repeats, by the pure policy `spec_confirmation`; no randomness is
    /// involved beyond what already went into `sampled_effect_size`.
    pub fn determine_confirmation(&self, original: &Study) -> (r: ConfirmationStatus)
        ensures
            r == spec_confirmation(self.sampled_effect_size, original.reported_effect_size),
    {
        let a: i128 = self.sampled_effect_size as i128;
        let b: i128 = original.reported_effect_size as i128;
        let diff: i128 = a - b;
        let within = -(CONFIRMATION_TOLERANCE_MICRO as i128) <= diff
            && diff <= CONFIRMATION_TOLERANCE_MICRO as i128;
        let both_significant = Self::is_significant(self.sampled_effect_size)
            && Self::is_significant(original.reported_effect_size);
        let same_sign = (self.sampled_effect_size > 0) == (original.reported_effect_size > 0);
        if within || (both_significant && same_sign) {
            ConfirmationStatus::Confirmed
        } else {
            ConfirmationStatus::Disconfirmed
        }
    }

    /// Whether an effect size clears the significance threshold.
    pub fn is_significant(e: i64) -> (r: bool)
        ensures
            r == spec_is_significant(e),
    {
        e > SIGNIFICANCE_LEVEL_MICRO || e < -SIGNIFICANCE_LEVEL_MICRO
    }

    /// One biased coin flip of the publication process.
    fn published_with_prob(&self, prob_ppm: u32, rng: &mut RandomDrawService) -> (r: PublicationStatus)
        requires
            prob_ppm <= PPM_SCALE,
        ensures
            r != PublicationStatus::Pending,
            prob_ppm == PPM_SCALE ==> r == PublicationStatus::Published,
            prob_ppm == 0 ==> r == PublicationStatus::Unpublished,
    {
        match rng.bernoulli(prob_ppm) {
            Ok(true) => PublicationStatus::Published,
            Ok(false) => PublicationStatus::Unpublished,
            Err(_) => PublicationStatus::Unpublished,
        }
    }

    /// Decides this study's publication status, modeling publication bias.
    ///
    /// An original study with a significant sampled effect is published
    /// deterministically; a null original enters the file drawer except with
    /// a small fixed probability. A repeat study is published with a rate
    /// that depends on its confirmation outcome, which must already be
    /// resolved: calling this on a repeat study with no confirmation outcome
    /// is an invariant violation and changes nothing.
    pub fn determine_publication_status(&mut self, rng: &mut RandomDrawService) -> (r: Result<(), SimError>)
        requires
            old(self).publication_status == PublicationStatus::Pending,
        ensures
            same_but_publication(*old(self), *final(self)),
            old(self).study_type == StudyType::Original && spec_is_significant(old(self).sampled_effect_size)
                ==> r is Ok && final(self).publication_status == PublicationStatus::Published,
            old(self).study_type == StudyType::Original && !spec_is_significant(old(self).sampled_effect_size)
                ==> r is Ok && final(self).publication_status != PublicationStatus::Pending,
            old(self).is_repeat() && old(self).confirmation_status is None
                ==> r == Result::<(), SimError>::Err(SimError::InvariantViolation { study_id: old(self).id })
                    && *final(self) == *old(self),
            old(self).is_repeat() && old(self).confirmation_status is Some
                ==> r is Ok && final(self).publication_status != PublicationStatus::Pending,
            r is Ok ==> final(self).publication_status != PublicationStatus::Pending,
            r is Err ==> *final(self) == *old(self),
    {
        match self.study_type {
            StudyType::Original => {
                if Self::is_significant(self.sampled_effect_size) {
                    self.publication_status = PublicationStatus::Published;
                } else {
                    self.publication_status = self.published_with_prob(PROB_PUBLISH_NULL_PPM, rng);
                }
                Ok(())
            },
            StudyType::Reproduction | StudyType::Replication => match self.confirmation_status {
                Some(ConfirmationStatus::Confirmed) => {
                    self.publication_status = self.published_with_prob(
                        PROB_PUBLISH_CONFIRMED_PPM,
                        rng,
                    );
                    Ok(())
                },
                Some(ConfirmationStatus::Disconfirmed) => {
                    self.publication_status = self.published_with_prob(
                        PROB_PUBLISH_DISCONFIRMED_PPM,
                        rng,
                    );
                    Ok(())
                },
                None => Err(SimError::InvariantViolation { study_id: self.id }),
            },
        }
    }
}

} // verus!
