//! A researcher agent: fixed behavioral probabilities drawn at admission,
//! at most one in-progress study, and a per-step behavior that may start a
//! new study, let the current one run, or finalize it with a publication
//! decision.

use vstd::prelude::*;

use crate::errors::SimError;
use crate::rng::RandomDrawService;
use crate::study::study_evolves;
use crate::study::PublicationStatus;
use crate::study::Study;
use crate::study::StudyType;
use crate::EFFECT_SIZE_MAX_MICRO;
use crate::PPM_SCALE;
use crate::PROB_START_ORIGINAL_PPM;

verus! {

/// A researcher agent. The six probabilities (ppm) are drawn once at
/// admission and fixed for the researcher's lifetime; they parameterize the
/// agent's stochastic choices each step.
#[derive(Clone, Copy, Debug, PartialEq, Eq)]
pub struct Researcher {
    pub id: u32,
    pub current_study_id: Option<u32>,
    pub prob_reproduce: u32,
    pub prob_replicate: u32,
    pub prob_open_original: u32,
    pub prob_open_repeating: u32,
    pub odds_repeat_open: u32,
    pub prob_closed_has_data: u32,
}

/// What an idle researcher decides to do this tick.
#[derive(Clone, Copy, Debug, PartialEq, Eq, Structural)]
pub enum IdleAction {
    StartOriginal,
    StartReproduction,
    StartReplication,
    RemainIdle,
}

/// The idle-decision policy, isolated as a pure function of the draws: a
/// repeat study is preferred when its draw succeeds and a target exists,
/// reproduction before replication; otherwise a fresh original study may
/// start; otherwise the researcher stays idle.
pub open spec fn spec_idle_action(
    draw_reproduce: bool,
    draw_replicate: bool,
    draw_original: bool,
    target_exists: bool,
) -> IdleAction {
    if draw_reproduce && target_exists {
        IdleAction::StartReproduction
    } else if draw_replicate && target_exists {
        IdleAction::StartReplication
    } else if draw_original {
        IdleAction::StartOriginal
    } else {
        IdleAction::RemainIdle
    }
}

/// Study `t` is an in-progress repeat aimed at study `oid`.
pub open spec fn claims(ss: Seq<Study>, t: int, oid: u32) -> bool {
    &&& ss[t].is_repeat()
    &&& ss[t].publication_status == PublicationStatus::Pending
    &&& ss[t].original_study_id == Some(oid)
}

/// A repeat study that is still pending and aimed at study `oid` claims it:
/// no second in-progress repeat may target the same study.
pub open spec fn claimed(ss: Seq<Study>, oid: u32) -> bool {
    exists|t: int| 0 <= t < ss.len() && claims(ss, t, oid)
}

/// A study that a new reproduction or replication may target: it exists, it
/// is published, and no in-progress repeat already claims it.
pub open spec fn eligible_target(ss: Seq<Study>, oid: u32) -> bool {
    &&& oid < ss.len()
    &&& ss[oid as int].publication_status == PublicationStatus::Published
    &&& !claimed(ss, oid)
}

/// Well-formedness of one entry of the study collection: the study is
/// well-formed, its id is its position, it started no later than `now`, and
/// a repeat study points back at an earlier study that was published when
/// the repeat began (publication, once decided, never reverts, so the
/// clause is stable).
pub open spec fn study_entry_wf(ss: Seq<Study>, j: int, now: int) -> bool {
    &&& ss[j].wf()
    &&& ss[j].id == j
    &&& ss[j].start_time <= now
    &&& (ss[j].original_study_id matches Some(oid) ==> oid < j && ss[oid as int].publication_status
        == PublicationStatus::Published)
}

/// Well-formedness of the whole study collection.
pub open spec fn studies_wf(ss: Seq<Study>, now: int) -> bool {
    forall|j: int| 0 <= j < ss.len() ==> #[trigger] study_entry_wf(ss, j, now)
}

/// The researcher's link to its in-progress study: if one is claimed, it
/// exists, it belongs to this researcher, and it is still pending.
pub open spec fn researcher_link(r: Researcher, ss: Seq<Study>) -> bool {
    r.current_study_id matches Some(sid) ==> {
        &&& sid < ss.len()
        &&& ss[sid as int].researcher_id == r.id
        &&& ss[sid as int].publication_status == PublicationStatus::Pending
    }
}

/// The identity and the six behavioral probabilities agree: everything of a
/// researcher except the in-progress-study link.
pub open spec fn same_profile(r0: Researcher, r1: Researcher) -> bool {
    &&& r1.id == r0.id
    &&& r1.prob_reproduce == r0.prob_reproduce
    &&& r1.prob_replicate == r0.prob_replicate
    &&& r1.prob_open_original == r0.prob_open_original
    &&& r1.prob_open_repeating == r0.prob_open_repeating
    &&& r1.odds_repeat_open == r0.odds_repeat_open
    &&& r1.prob_closed_has_data == r0.prob_closed_has_data
}

/// Clamps an effect size into the recorded range.
fn clamp_effect(e: i64) -> (r: i64)
    ensures
        -EFFECT_SIZE_MAX_MICRO <= r <= EFFECT_SIZE_MAX_MICRO,
        -EFFECT_SIZE_MAX_MICRO <= e <= EFFECT_SIZE_MAX_MICRO ==> r == e,
{
    if e > EFFECT_SIZE_MAX_MICRO {
        EFFECT_SIZE_MAX_MICRO
    } else if e < -EFFECT_SIZE_MAX_MICRO {
        -EFFECT_SIZE_MAX_MICRO
    } else {
        e
    }
}

/// Collects the ids of every study a new repeat may target: one pass marks
/// the studies that an in-progress repeat already claims, a second pass
/// collects the published, unclaimed ones.
fn eligible_targets(studies: &Vec<Study>) -> (r: Vec<u32>)
    requires
        studies@.len() < u32::MAX,
    ensures
        forall|k: int| 0 <= k < r@.len() ==> eligible_target(studies@, #[trigger] r@[k]),
        r@.len() <= studies@.len(),
{
    let ghost ss = studies@;
    let n = studies.len();
    let mut flags: Vec<bool> = Vec::new();
    let mut k: usize = 0;
    while k < n
        invariant
            k <= n,
            flags@.len() == k,
            forall|x: int| 0 <= x < k ==> #[trigger] flags@[x] == false,
        decreases n - k,
    {
        flags.push(false);
        k += 1;
    }
    let mut j: usize = 0;
    while j < n
        invariant
            j <= n,
            n == ss.len(),
            n < u32::MAX,
            studies@ == ss,
            flags@.len() == n,
            forall|x: int|
                0 <= x < n ==> (#[trigger] flags@[x] <==> exists|t: int|
                    0 <= t < j && #[trigger] claims(ss, t, x as u32)),
        decreases n - j,
    {
        let ghost flags_pre = flags@;
        let s = studies[j];
        let is_repeat = match s.study_type {
            StudyType::Original => false,
            _ => true,
        };
        if is_repeat && s.publication_status == PublicationStatus::Pending {
            if let Some(o) = s.original_study_id {
                if (o as usize) < n {
                    flags.set(o as usize, true);
                    proof {
                        assert(claims(ss, j as int, o));
                    }
                }
            }
        }
        proof {
            assert forall|x: int| 0 <= x < n implies (#[trigger] flags@[x] <==> exists|t: int|
                0 <= t < j + 1 && #[trigger] claims(ss, t, x as u32)) by {
                if flags@[x] {
                    if flags_pre[x] {
                        let t0 = choose|t: int| 0 <= t < j && #[trigger] claims(ss, t, x as u32);
                        assert(0 <= t0 < j + 1 && claims(ss, t0, x as u32));
                    } else {
                        assert(claims(ss, j as int, x as u32));
                    }
                } else {
                    assert(!claims(ss, j as int, x as u32));
                }
            }
        }
        j += 1;
    }
    let mut out: Vec<u32> = Vec::new();
    let mut i: usize = 0;
    while i < n
        invariant
            i <= n,
            n == ss.len(),
            n < u32::MAX,
            studies@ == ss,
            flags@.len() == n,
            forall|x: int| 0 <= x < n ==> (#[trigger] flags@[x] <==> claimed(ss, x as u32)),
            out@.len() <= i,
            forall|k2: int| 0 <= k2 < out@.len() ==> eligible_target(ss, #[trigger] out@[k2]),
        decreases n - i,
    {
        let s = studies[i];
        if s.publication_status == PublicationStatus::Published && !flags[i] {
            out.push(i as u32);
        }
        i += 1;
    }
    out
}

impl Researcher {
    /// The six probabilities all lie within one whole.
    pub open spec fn wf_probs(self) -> bool {
        &&& self.prob_reproduce <= PPM_SCALE
        &&& self.prob_replicate <= PPM_SCALE
        &&& self.prob_open_original <= PPM_SCALE
        &&& self.prob_open_repeating <= PPM_SCALE
        &&& self.odds_repeat_open <= PPM_SCALE
        &&& self.prob_closed_has_data <= PPM_SCALE
    }

    /// Admits a new researcher: idle, with fresh random behavioral
    /// probabilities, fixed from here on.
    pub fn new(id: u32, rng: &mut RandomDrawService) -> (r: Researcher)
        ensures
            r.id == id,
            r.current_study_id is None,
            r.wf_probs(),
    {
        Researcher {
            id,
            current_study_id: None,
            prob_reproduce: rng.uniform_ppm(),
            prob_replicate: rng.uniform_ppm(),
            prob_open_original: rng.uniform_ppm(),
            prob_open_repeating: rng.uniform_ppm(),
            odds_repeat_open: rng.uniform_ppm(),
            prob_closed_has_data: rng.uniform_ppm(),
        }
    }

    /// One tick of this researcher's behavior.
    ///
    /// Idle: decide by `spec_idle_action` whether to start an original, a
    /// reproduction or a replication (of an eligible published target), or
    /// stay idle; a started study is appended to the collection, pending.
    /// Active: once `duration_days` have elapsed since `start_time`,
    /// finalize — settle observed and reported effects by the open/closed
    /// data policy, resolve confirmation for a repeat, decide publication,
    /// and release the link. A broken researcher-study link is surfaced as
    /// `InvariantViolation` with nothing changed.
    pub fn step(
        &mut self,
        time: u32,
        studies: &mut Vec<Study>,
        rng: &mut RandomDrawService,
    ) -> (r: Result<(), SimError>)
        requires
            old(self).wf_probs(),
            studies_wf(old(studies)@, time as int),
            old(studies)@.len() < u32::MAX,
        ensures
            same_profile(*old(self), *final(self)),
            old(studies)@.len() <= final(studies)@.len() <= old(studies)@.len() + 1,
            forall|j: int|
                0 <= j < old(studies)@.len() ==> study_evolves(
                    old(studies)@[j],
                    #[trigger] final(studies)@[j],
                ),
            forall|j: int|
                0 <= j < old(studies)@.len() && old(self).current_study_id != Some(
                    old(studies)@[j].id,
                ) ==> #[trigger] final(studies)@[j] == old(studies)@[j],
            studies_wf(final(studies)@, time as int),
            r is Ok ==> researcher_link(*final(self), final(studies)@),
            final(studies)@.len() > old(studies)@.len() ==> {
                &&& old(self).current_study_id is None
                &&& final(studies)@.last().researcher_id == old(self).id
                &&& final(studies)@.last().start_time == time
                &&& final(studies)@.last().publication_status == PublicationStatus::Pending
                &&& final(self).current_study_id == Some(old(studies)@.len() as u32)
                &&& (final(studies)@.last().original_study_id matches Some(oid)
                    ==> eligible_target(old(studies)@, oid))
            },
            final(studies)@.len() == old(studies)@.len() ==> (final(self).current_study_id == old(
                self,
            ).current_study_id || final(self).current_study_id is None),
            old(self).current_study_id matches Some(sid) ==> ((researcher_link(
                *old(self),
                old(studies)@,
            ) && old(studies)@[sid as int].start_time + old(studies)@[sid as int].duration_days
                <= time) ==> (final(studies)@[sid as int].publication_status
                != PublicationStatus::Pending && final(self).current_study_id is None)),
            old(self).current_study_id matches Some(sid) ==> ((researcher_link(
                *old(self),
                old(studies)@,
            ) && old(studies)@[sid as int].start_time + old(studies)@[sid as int].duration_days
                > time) ==> (*final(self) == *old(self) && final(studies)@ == old(studies)@)),
            (old(self).current_study_id is None && final(studies)@.len() == old(studies)@.len())
                ==> (*final(self) == *old(self) && final(studies)@ == old(studies)@),
            r is Ok <==> (old(self).current_study_id is None || researcher_link(
                *old(self),
                old(studies)@,
            )),
            r is Err ==> *final(self) == *old(self) && final(studies)@ == old(studies)@ && (
            r matches Err(SimError::InvariantViolation { .. })),
    {
        let ghost ss0 = studies@;
        match self.current_study_id {
            None => self.step_idle(time, studies, rng),
            Some(sid) => {
                let r = self.step_active(sid, time, studies, rng);
                proof {
                    let ss1 = studies@;
                    assert forall|j: int|
                        0 <= j < ss0.len() && old(self).current_study_id != Some(
                            ss0[j].id,
                        ) implies #[trigger] ss1[j] == ss0[j] by {
                        assert(study_entry_wf(ss0, j, time as int));
                    }
                }
                r
            },
        }
    }

    /// The idle half of `step`: maybe start a study.
    fn step_idle(
        &mut self,
        time: u32,
        studies: &mut Vec<Study>,
        rng: &mut RandomDrawService,
    ) -> (r: Result<(), SimError>)
        requires
            old(self).wf_probs(),
            old(self).current_study_id is None,
            studies_wf(old(studies)@, time as int),
            old(studies)@.len() < u32::MAX,
        ensures
            same_profile(*old(self), *final(self)),
            old(studies)@.len() <= final(studies)@.len() <= old(studies)@.len() + 1,
            forall|j: int|
                0 <= j < old(studies)@.len() ==> #[trigger] final(studies)@[j] == old(studies)@[j],
            studies_wf(final(studies)@, time as int),
            researcher_link(*final(self), final(studies)@),
            final(studies)@.len() > old(studies)@.len() ==> {
                &&& final(studies)@.last().researcher_id == old(self).id
                &&& final(studies)@.last().start_time == time
                &&& final(studies)@.last().publication_status == PublicationStatus::Pending
                &&& final(self).current_study_id == Some(old(studies)@.len() as u32)
                &&& (final(studies)@.last().original_study_id matches Some(oid)
                    ==> eligible_target(old(studies)@, oid))
            },
            final(studies)@.len() == old(studies)@.len() ==> *final(self) == *old(self)
                && final(studies)@ == old(studies)@,
            r is Ok,
    {
        let targets = eligible_targets(studies);
        let target_exists = targets.len() > 0;
        let draw_reproduce = match rng.bernoulli(self.prob_reproduce) {
            Ok(b) => b,
            Err(_) => false,
        };
        let draw_replicate = match rng.bernoulli(self.prob_replicate) {
            Ok(b) => b,
            Err(_) => false,
        };
        let draw_original = match rng.bernoulli(PROB_START_ORIGINAL_PPM) {
            Ok(b) => b,
            Err(_) => false,
        };
        let action = Self::idle_action(draw_reproduce, draw_replicate, draw_original, target_exists);
        match action {
            IdleAction::RemainIdle => Ok(()),
            IdleAction::StartOriginal => {
                let true_eff = match rng.uniform_int(-1_000_000, 1_000_000) {
                    Ok(v) => v,
                    Err(_) => 0,
                };
                let noise = match rng.uniform_int(-100_000, 100_000) {
                    Ok(v) => v,
                    Err(_) => 0,
                };
                let sampled = clamp_effect(true_eff + noise);
                self.start_study(StudyType::Original, true_eff, sampled, None, time, studies, rng);
                Ok(())
            },
            IdleAction::StartReproduction | IdleAction::StartReplication => {
                let pick = match rng.uniform_u32(0, (targets.len() - 1) as u32) {
                    Ok(v) => v,
                    Err(_) => 0,
                };
                let oid = targets[pick as usize];
                proof {
                    assert(study_entry_wf(studies@, oid as int, time as int));
                }
                let original = studies[oid as usize];
                let true_eff = original.true_effect_size;
                let noise = match rng.uniform_int(-100_000, 100_000) {
                    Ok(v) => v,
                    Err(_) => 0,
                };
                let sampled = clamp_effect(true_eff + noise);
                let ty = if matches!(action, IdleAction::StartReproduction) {
                    StudyType::Reproduction
                } else {
                    StudyType::Replication
                };
                self.start_study(ty, true_eff, sampled, Some(oid), time, studies, rng);
                Ok(())
            },
        }
    }

    /// Creates and appends the new study and links it to this researcher.
    fn start_study(
        &mut self,
        ty: StudyType,
        true_eff: i64,
        sampled: i64,
        original_study_id: Option<u32>,
        time: u32,
        studies: &mut Vec<Study>,
        rng: &mut RandomDrawService,
    )
        requires
            old(self).current_study_id is None,
            studies_wf(old(studies)@, time as int),
            old(studies)@.len() < u32::MAX,
            -EFFECT_SIZE_MAX_MICRO <= true_eff <= EFFECT_SIZE_MAX_MICRO,
            -EFFECT_SIZE_MAX_MICRO <= sampled <= EFFECT_SIZE_MAX_MICRO,
            ty == StudyType::Original <==> original_study_id is None,
            original_study_id matches Some(oid) ==> eligible_target(old(studies)@, oid),
        ensures
            same_profile(*old(self), *final(self)),
            final(studies)@.len() == old(studies)@.len() + 1,
            forall|j: int|
                0 <= j < old(studies)@.len() ==> #[trigger] final(studies)@[j] == old(studies)@[j],
            studies_wf(final(studies)@, time as int),
            researcher_link(*final(self), final(studies)@),
            final(studies)@.last().researcher_id == old(self).id,
            final(studies)@.last().start_time == time,
            final(studies)@.last().publication_status == PublicationStatus::Pending,
            final(studies)@.last().original_study_id == original_study_id,
            final(self).current_study_id == Some(old(studies)@.len() as u32),
    {
        let ghost ss0 = studies@;
        let duration = match rng.uniform_u32(1, 10) {
            Ok(v) => v,
            Err(_) => 1,
        };
        let id = studies.len() as u32;
        let study = Study {
            id,
            start_time: time,
            study_type: ty,
            researcher_id: self.id,
            true_effect_size: true_eff,
            sampled_effect_size: sampled,
            observed_effect_size: sampled,
            reported_effect_size: sampled,
            duration_days: duration,
            publication_status: PublicationStatus::Pending,
            original_study_id,
            confirmation_status: None,
        };
        studies.push(study);
        self.current_study_id = Some(id);
        proof {
            let ss1 = studies@;
            assert forall|j: int| 0 <= j < ss1.len() implies #[trigger] study_entry_wf(
                ss1,
                j,
                time as int,
            ) by {
                if j < ss0.len() {
                    assert(study_entry_wf(ss0, j, time as int));
                    assert(ss1[j] == ss0[j]);
                    if let Some(oid2) = ss0[j].original_study_id {
                        assert(ss1[oid2 as int] == ss0[oid2 as int]);
                    }
                } else {
                    assert(ss1[j] == study);
                    if let Some(oid2) = original_study_id {
                        assert(ss1[oid2 as int] == ss0[oid2 as int]);
                    }
                }
            }
        }
    }

    /// The active half of `step`: advance the in-progress study, finalizing
    /// it once its duration has elapsed.
    #[verifier::rlimit(100)]
    fn step_active(
        &mut self,
        sid: u32,
        time: u32,
        studies: &mut Vec<Study>,
        rng: &mut RandomDrawService,
    ) -> (r: Result<(), SimError>)
        requires
            old(self).wf_probs(),
            old(self).current_study_id == Some(sid),
            studies_wf(old(studies)@, time as int),
            old(studies)@.len() < u32::MAX,
        ensures
            same_profile(*old(self), *final(self)),
            final(studies)@.len() == old(studies)@.len(),
            forall|j: int|
                0 <= j < old(studies)@.len() ==> study_evolves(
                    old(studies)@[j],
                    #[trigger] final(studies)@[j],
                ),
            forall|j: int|
                0 <= j < old(studies)@.len() && j != sid ==> #[trigger] final(studies)@[j] == old(
                    studies,
                )@[j],
            studies_wf(final(studies)@, time as int),
            r is Ok ==> researcher_link(*final(self), final(studies)@),
            r is Ok <==> researcher_link(*old(self), old(studies)@),
            final(self).current_study_id == old(self).current_study_id || (final(
                self).current_study_id is None),
            (researcher_link(*old(self), old(studies)@) && old(studies)@[sid as int].start_time
                + old(studies)@[sid as int].duration_days <= time) ==> (final(studies)@[
                sid as int
            ].publication_status != PublicationStatus::Pending && final(self).current_study_id
                is None),
            (researcher_link(*old(self), old(studies)@) && old(studies)@[sid as int].start_time
                + old(studies)@[sid as int].duration_days > time) ==> (*final(self) == *old(self)
                && final(studies)@ == old(studies)@),
            r is Err ==> *final(self) == *old(self) && final(studies)@ == old(studies)@ && (
            r matches Err(SimError::InvariantViolation { .. })),
    {
        let ghost ss0 = studies@;
        proof {
            assert forall|j: int| 0 <= j < ss0.len() implies study_evolves(
                ss0[j],
                #[trigger] ss0[j],
            ) by {}
        }
        if sid as usize >= studies.len() {
            return Err(SimError::InvariantViolation { study_id: sid });
        }
        proof {
            assert(study_entry_wf(ss0, sid as int, time as int));
        }
        let st = studies[sid as usize];
        if st.researcher_id != self.id || st.publication_status != PublicationStatus::Pending {
            return Err(SimError::InvariantViolation { study_id: sid });
        }
        if (time as u64) < st.start_time as u64 + st.duration_days as u64 {
            // Still running; nothing to do this tick.
            return Ok(());
        }
        // Finalize: settle what gets written up, by the open/closed data
        // policy of this researcher.
        let is_original = matches!(st.study_type, StudyType::Original);
        let open_prob = if is_original {
            self.prob_open_original
        } else {
            self.prob_open_repeating
        };
        let is_open = match rng.bernoulli(open_prob) {
            Ok(b) => b,
            Err(_) => false,
        };
        let observed = st.sampled_effect_size;
        let mut reported = observed;
        if !is_open {
            let has_data = match rng.bernoulli(self.prob_closed_has_data) {
                Ok(b) => b,
                Err(_) => false,
            };
            if !has_data {
                // Closed data with nothing to show invites inflation of the
                // reported effect away from zero.
                let bump = match rng.uniform_int(0, 100_000) {
                    Ok(v) => v,
                    Err(_) => 0,
                };
                reported = clamp_effect(
                    if observed >= 0 {
                        observed + bump
                    } else {
                        observed - bump
                    },
                );
            }
        }
        let mut finished = st;
        finished.observed_effect_size = observed;
        finished.reported_effect_size = reported;
        if !is_original && finished.confirmation_status.is_none() {
            let oid = match finished.original_study_id {
                Some(o) => o,
                None => {
                    // A repeat study always carries its back-reference.
                    proof {
                        assert(false);
                    }
                    return Err(SimError::InvariantViolation { study_id: sid });
                },
            };
            let original = studies[oid as usize];
            let conf = finished.determine_confirmation(&original);
            finished.confirmation_status = Some(conf);
        }
        match finished.determine_publication_status(rng) {
            Ok(()) => {},
            Err(e) => {
                // Confirmation was resolved above, so the decision succeeds.
                proof {
                    assert(false);
                }
                return Err(e);
            },
        }
        studies.set(sid as usize, finished);
        self.current_study_id = None;
        proof {
            let ss1 = studies@;
            assert forall|j: int| 0 <= j < ss0.len() implies study_evolves(
                ss0[j],
                #[trigger] ss1[j],
            ) by {
                if j != sid {
                    assert(ss1[j] == ss0[j]);
                } else {
                    assert(ss1[j] == finished);
                }
            }
            assert forall|j: int| 0 <= j < ss1.len() implies #[trigger] study_entry_wf(
                ss1,
                j,
                time as int,
            ) by {
                assert(study_entry_wf(ss0, j, time as int));
                if j != sid {
                    assert(ss1[j] == ss0[j]);
                    if let Some(oid2) = ss0[j].original_study_id {
                        assert(ss0[oid2 as int].publication_status == PublicationStatus::Published);
                        assert(oid2 != sid);
                        assert(ss1[oid2 as int] == ss0[oid2 as int]);
                    }
                }
            }
        }
        Ok(())
    }

    /// The executable face of the idle-decision policy.
    pub fn idle_action(
        draw_reproduce: bool,
        draw_replicate: bool,
        draw_original: bool,
        target_exists: bool,
    ) -> (r: IdleAction)
        ensures
            r == spec_idle_action(draw_reproduce, draw_replicate, draw_original, target_exists),
    {
        if draw_reproduce && target_exists {
            IdleAction::StartReproduction
        } else if draw_replicate && target_exists {
            IdleAction::StartReplication
        } else if draw_original {
            IdleAction::StartOriginal
        } else {
            IdleAction::RemainIdle
        }
    }
}

} // verus!
