//! The world aggregate: the researcher population, the study record, the
//! simulation clock, and the per-tick stepping loop, together with the
//! on-demand `Summary` read-model.

use vstd::prelude::*;

use crate::researcher::researcher_link;
use crate::researcher::same_profile;
use crate::researcher::studies_wf;
use crate::researcher::study_entry_wf;
use crate::researcher::Researcher;
use crate::rng::RandomDrawService;
use crate::study::study_evolves;
use crate::study::ConfirmationStatus;
use crate::study::PublicationStatus;
use crate::study::Study;
use crate::study::StudyType;
use crate::EFFECT_SIZE_MAX_MICRO;

verus! {

/// The upper bound on the number of researchers admitted in one tick.
pub const MAX_ADMISSIONS_PER_STEP: u32 = 10;

/// The simulation's root aggregate. Insertion order of `researchers` is
/// admission order, of `studies` creation order; the id of each entry is its
/// position, and the two counters always hold the next free id.
#[derive(Debug, PartialEq)]
pub struct Academia {
    pub time: u32,
    pub next_study_id: u32,
    pub next_researcher_id: u32,
    pub researchers: Vec<Researcher>,
    pub studies: Vec<Study>,
}

/// An immutable point-in-time aggregate over the world's studies and
/// researchers, recomputed fully on each request and never stored.
/// `avg_effect_size` is the mean reported effect in micro-units, rounded
/// toward zero, and zero when no studies exist.
#[derive(Clone, Copy, Debug, PartialEq, Eq)]
pub struct Summary {
    pub time: u32,
    pub number_of_studies: u32,
    pub number_of_researchers: u32,
    pub number_of_published_studies: u32,
    pub number_of_unpublished_studies: u32,
    pub number_of_reproductions: u32,
    pub number_of_replications: u32,
    pub number_of_originals: u32,
    pub number_of_confirmed: u32,
    pub number_of_disconfirmed: u32,
    pub number_of_pending: u32,
    pub avg_effect_size: i64,
}

/// How many studies carry the given publication status.
pub open spec fn count_status(ss: Seq<Study>, st: PublicationStatus) -> int
    decreases ss.len(),
{
    if ss.len() == 0 {
        0
    } else {
        count_status(ss.drop_last(), st) + if ss.last().publication_status == st {
            1int
        } else {
            0int
        }
    }
}

/// How many studies are of the given type.
pub open spec fn count_type(ss: Seq<Study>, ty: StudyType) -> int
    decreases ss.len(),
{
    if ss.len() == 0 {
        0
    } else {
        count_type(ss.drop_last(), ty) + if ss.last().study_type == ty {
            1int
        } else {
            0int
        }
    }
}

/// How many studies carry the given confirmation outcome (`None` is the
/// pending bucket, and covers original studies as well).
pub open spec fn count_confirmation(ss: Seq<Study>, c: Option<ConfirmationStatus>) -> int
    decreases ss.len(),
{
    if ss.len() == 0 {
        0
    } else {
        count_confirmation(ss.drop_last(), c) + if ss.last().confirmation_status == c {
            1int
        } else {
            0int
        }
    }
}

/// The sum of every study's reported effect size, in micro-units.
pub open spec fn sum_reported(ss: Seq<Study>) -> int
    decreases ss.len(),
{
    if ss.len() == 0 {
        0
    } else {
        sum_reported(ss.drop_last()) + ss.last().reported_effect_size
    }
}

/// Integer division rounded toward zero, the rounding `summarize` uses for
/// the mean reported effect.
pub open spec fn div_toward_zero(a: int, b: int) -> int {
    if a >= 0 {
        a / b
    } else {
        -((-a) / b)
    }
}

/// The mean reported effect size over the studies, rounded toward zero,
/// and zero for an empty record.
pub open spec fn avg_reported(ss: Seq<Study>) -> int {
    if ss.len() == 0 {
        0
    } else {
        div_toward_zero(sum_reported(ss), ss.len() as int)
    }
}

/// The publication-status buckets partition the study record.
pub proof fn lemma_status_partition(ss: Seq<Study>)
    ensures
        count_status(ss, PublicationStatus::Pending) + count_status(
            ss,
            PublicationStatus::Published,
        ) + count_status(ss, PublicationStatus::Unpublished) == ss.len(),
    decreases ss.len(),
{
    if ss.len() > 0 {
        lemma_status_partition(ss.drop_last());
    }
}

/// The study-type buckets partition the study record.
pub proof fn lemma_type_partition(ss: Seq<Study>)
    ensures
        count_type(ss, StudyType::Original) + count_type(ss, StudyType::Reproduction) + count_type(
            ss,
            StudyType::Replication,
        ) == ss.len(),
    decreases ss.len(),
{
    if ss.len() > 0 {
        lemma_type_partition(ss.drop_last());
    }
}

/// The confirmation buckets, with `None` as the pending one, partition the
/// study record.
pub proof fn lemma_confirmation_partition(ss: Seq<Study>)
    ensures
        count_confirmation(ss, Option::<ConfirmationStatus>::None) + count_confirmation(
            ss,
            Some(ConfirmationStatus::Confirmed),
        ) + count_confirmation(ss, Some(ConfirmationStatus::Disconfirmed)) == ss.len(),
    decreases ss.len(),
{
    if ss.len() > 0 {
        lemma_confirmation_partition(ss.drop_last());
        let c = ss.last().confirmation_status;
        assert(c is None || c == Some(ConfirmationStatus::Confirmed) || c == Some(
            ConfirmationStatus::Disconfirmed,
        ));
    }
}

/// In every well-formed world, each reproduction or replication study whose
/// publication status has left `Pending` carries a confirmation outcome.
pub proof fn lemma_confirmation_resolved(a: Academia)
    requires
        a.wf(),
    ensures
        forall|j: int|
            0 <= j < a.studies@.len() && (#[trigger] a.studies@[j]).is_repeat()
                && a.studies@[j].publication_status != PublicationStatus::Pending
                ==> a.studies@[j].confirmation_status is Some,
{
    assert forall|j: int|
        0 <= j < a.studies@.len() && (#[trigger] a.studies@[j]).is_repeat()
            && a.studies@[j].publication_status != PublicationStatus::Pending
            implies a.studies@[j].confirmation_status is Some by {
        assert(study_entry_wf(a.studies@, j, a.time as int));
    }
}

/// Well-formedness of one researcher entry: its id is its position, its
/// probabilities are in range, and its link to an in-progress study holds.
pub open spec fn researcher_entry_wf(rs: Seq<Researcher>, ss: Seq<Study>, i: int) -> bool {
    &&& rs[i].id == i
    &&& rs[i].wf_probs()
    &&& researcher_link(rs[i], ss)
}

impl Academia {
    /// The world invariant: counters mirror the collection lengths, every
    /// researcher entry and every study entry is well-formed, and every
    /// study belongs to an admitted researcher.
    pub open spec fn wf(self) -> bool {
        &&& self.next_researcher_id == self.researchers@.len()
        &&& self.next_study_id == self.studies@.len()
        &&& forall|i: int|
            0 <= i < self.researchers@.len() ==> #[trigger] researcher_entry_wf(
                self.researchers@,
                self.studies@,
                i,
            )
        &&& studies_wf(self.studies@, self.time as int)
        &&& forall|j: int|
            0 <= j < self.studies@.len() ==> (#[trigger] self.studies@[j]).researcher_id
                < self.researchers@.len()
    }

    /// A fresh world: time zero, no researchers, no studies.
    pub fn new() -> (r: Academia)
        ensures
            r.wf(),
            r.time == 0,
            r.next_study_id == 0,
            r.next_researcher_id == 0,
            r.researchers@.len() == 0,
            r.studies@.len() == 0,
    {
        Academia {
            time: 0,
            next_study_id: 0,
            next_researcher_id: 0,
            researchers: Vec::new(),
            studies: Vec::new(),
        }
    }

    /// Admits one researcher with the next free id and fresh random
    /// behavioral probabilities.
    pub fn add_researcher(&mut self, rng: &mut RandomDrawService)
        requires
            old(self).wf(),
            old(self).researchers@.len() < u32::MAX,
        ensures
            final(self).wf(),
            final(self).time == old(self).time,
            final(self).studies@ == old(self).studies@,
            final(self).next_study_id == old(self).next_study_id,
            final(self).researchers@.len() == old(self).researchers@.len() + 1,
            final(self).next_researcher_id == old(self).next_researcher_id + 1,
            forall|i: int|
                0 <= i < old(self).researchers@.len() ==> #[trigger] final(self).researchers@[i]
                    == old(self).researchers@[i],
            final(self).researchers@.last().id == old(self).researchers@.len(),
            final(self).researchers@.last().current_study_id is None,
    {
        let ghost rs0 = self.researchers@;
        let researcher = Researcher::new(self.next_researcher_id, rng);
        self.researchers.push(researcher);
        self.next_researcher_id = self.next_researcher_id + 1;
        proof {
            let rs1 = self.researchers@;
            assert forall|i: int| 0 <= i < rs1.len() implies #[trigger] researcher_entry_wf(
                rs1,
                self.studies@,
                i,
            ) by {
                if i < rs0.len() {
                    assert(researcher_entry_wf(rs0, self.studies@, i));
                    assert(rs1[i] == rs0[i]);
                } else {
                    assert(rs1[i] == researcher);
                }
            }
        }
    }

    /// Populates the world with that many researchers before stepping
    /// begins. Calling it again later simply admits more researchers.
    pub fn init(&mut self, num_of_researchers: u32, rng: &mut RandomDrawService)
        requires
            old(self).wf(),
            old(self).researchers@.len() + num_of_researchers <= u32::MAX,
        ensures
            final(self).wf(),
            final(self).time == old(self).time,
            final(self).studies@ == old(self).studies@,
            final(self).next_study_id == old(self).next_study_id,
            final(self).researchers@.len() == old(self).researchers@.len() + num_of_researchers,
            forall|i: int|
                0 <= i < old(self).researchers@.len() ==> #[trigger] final(self).researchers@[i]
                    == old(self).researchers@[i],
    {
        let mut k: u32 = 0;
        while k < num_of_researchers
            invariant
                k <= num_of_researchers,
                self.wf(),
                self.time == old(self).time,
                self.studies@ == old(self).studies@,
                self.next_study_id == old(self).next_study_id,
                self.researchers@.len() == old(self).researchers@.len() + k,
                old(self).researchers@.len() + num_of_researchers <= u32::MAX,
                forall|i: int|
                    0 <= i < old(self).researchers@.len() ==> #[trigger] self.researchers@[i]
                        == old(self).researchers@[i],
            decreases num_of_researchers - k,
        {
            self.add_researcher(rng);
            k = k + 1;
        }
    }

    /// One simulation step: admission phase, behavior phase in collection
    /// order, then the clock advances by exactly one tick.
    ///
    /// The clock never moves otherwise; studies only evolve lawfully (a
    /// publication decision is made at most once and never reverted, a
    /// confirmation outcome never changes once set); researcher profiles
    /// are immutable after admission.
    pub fn step(&mut self, rng: &mut RandomDrawService)
        requires
            old(self).wf(),
            old(self).time < u32::MAX,
            old(self).researchers@.len() + MAX_ADMISSIONS_PER_STEP <= u32::MAX,
            old(self).studies@.len() + old(self).researchers@.len() + MAX_ADMISSIONS_PER_STEP
                <= u32::MAX,
        ensures
            final(self).wf(),
            final(self).time == old(self).time + 1,
            old(self).researchers@.len() <= final(self).researchers@.len() <= old(
                self,
            ).researchers@.len() + MAX_ADMISSIONS_PER_STEP,
            forall|i: int|
                0 <= i < old(self).researchers@.len() ==> same_profile(
                    old(self).researchers@[i],
                    #[trigger] final(self).researchers@[i],
                ),
            old(self).studies@.len() <= final(self).studies@.len(),
            final(self).studies@.len() <= old(self).studies@.len()
                + final(self).researchers@.len(),
            forall|j: int|
                0 <= j < old(self).studies@.len() ==> study_evolves(
                    old(self).studies@[j],
                    #[trigger] final(self).studies@[j],
                ),
            forall|i: int|
                0 <= i < old(self).researchers@.len()
                    ==> ((#[trigger] old(self).researchers@[i]).current_study_id matches Some(sid)
                    ==> (old(self).studies@[sid as int].start_time
                        + old(self).studies@[sid as int].duration_days <= old(self).time
                    ==> (final(self).studies@[sid as int].publication_status
                        != PublicationStatus::Pending
                        && final(self).researchers@[i].current_study_id is None))),
    {
        // Admission phase: zero to ten fresh researchers this tick.
        let n_new = match rng.uniform_u32(0, MAX_ADMISSIONS_PER_STEP) {
            Ok(v) => v,
            Err(_) => 0,
        };
        let mut k: u32 = 0;
        while k < n_new
            invariant
                k <= n_new,
                n_new <= MAX_ADMISSIONS_PER_STEP,
                self.wf(),
                self.time == old(self).time,
                self.studies@ == old(self).studies@,
                self.next_study_id == old(self).next_study_id,
                old(self).researchers@.len() + MAX_ADMISSIONS_PER_STEP <= u32::MAX,
                self.researchers@.len() == old(self).researchers@.len() + k,
                forall|i: int|
                    0 <= i < old(self).researchers@.len() ==> #[trigger] self.researchers@[i]
                        == old(self).researchers@[i],
            decreases n_new - k,
        {
            self.add_researcher(rng);
            k = k + 1;
        }
        // Behavior phase: each researcher acts once, in collection order.
        let ghost rs1 = self.researchers@;
        let ghost ss1 = self.studies@;
        proof {
            assert forall|t: int| 0 <= t < rs1.len() implies researcher_link(
                #[trigger] rs1[t],
                ss1,
            ) by {
                assert(researcher_entry_wf(rs1, ss1, t));
            }
        }
        let mut i: usize = 0;
        while i < self.researchers.len()
            invariant
                i <= rs1.len(),
                self.researchers@.len() == rs1.len(),
                self.time == old(self).time,
                self.time < u32::MAX,
                self.next_researcher_id == rs1.len(),
                self.next_study_id == old(self).next_study_id,
                ss1.len() <= self.studies@.len(),
                self.studies@.len() <= ss1.len() + i,
                self.studies@.len() + (rs1.len() - i) <= u32::MAX,
                studies_wf(self.studies@, self.time as int),
                forall|t: int| 0 <= t < rs1.len() ==> researcher_link(#[trigger] rs1[t], ss1),
                forall|t: int|
                    0 <= t < i ==> ((#[trigger] rs1[t]).current_study_id matches Some(sid) ==> (
                    ss1[sid as int].start_time + ss1[sid as int].duration_days <= self.time ==> (
                    self.studies@[sid as int].publication_status != PublicationStatus::Pending
                        && self.researchers@[t].current_study_id is None))),
                forall|t: int|
                    0 <= t < rs1.len() ==> researcher_entry_wf(
                        self.researchers@,
                        self.studies@,
                        t,
                    ),
                forall|t: int| i <= t < rs1.len() ==> #[trigger] self.researchers@[t] == rs1[t],
                forall|t: int|
                    0 <= t < rs1.len() ==> same_profile(rs1[t], #[trigger] self.researchers@[t]),
                forall|j: int|
                    0 <= j < ss1.len() ==> study_evolves(ss1[j], #[trigger] self.studies@[j]),
                forall|j: int|
                    0 <= j < self.studies@.len() ==> (#[trigger] self.studies@[j]).researcher_id
                        < rs1.len(),
            decreases rs1.len() - i,
        {
            let ghost ss_pre = self.studies@;
            let ghost rs_pre = self.researchers@;
            proof {
                assert(researcher_entry_wf(rs_pre, ss_pre, i as int));
            }
            let mut r = self.researchers[i];
            let res = r.step(self.time, &mut self.studies, rng);
            self.researchers.set(i, r);
            proof {
                let ss_post = self.studies@;
                let rs_post = self.researchers@;
                assert(res is Ok);
                assert forall|t: int| 0 <= t < rs1.len() implies researcher_entry_wf(
                    rs_post,
                    ss_post,
                    t,
                ) by {
                    assert(researcher_entry_wf(rs_pre, ss_pre, t));
                    if t == i {
                        assert(rs_post[t] == r);
                    } else {
                        assert(rs_post[t] == rs_pre[t]);
                        if let Some(sidt) = rs_pre[t].current_study_id {
                            assert(study_entry_wf(ss_pre, sidt as int, self.time as int));
                            if rs_pre[i as int].current_study_id == Some(ss_pre[sidt as int].id) {
                                let sidi = rs_pre[i as int].current_study_id->0;
                                assert(ss_pre[sidi as int].researcher_id == i);
                                assert(false);
                            }
                            assert(ss_post[sidt as int] == ss_pre[sidt as int]);
                        }
                    }
                }
                assert forall|j: int| 0 <= j < ss1.len() implies study_evolves(
                    ss1[j],
                    #[trigger] ss_post[j],
                ) by {
                    assert(study_evolves(ss1[j], ss_pre[j]));
                    assert(study_evolves(ss_pre[j], ss_post[j]));
                }
                assert forall|j: int| 0 <= j < ss_post.len() implies (
                #[trigger] ss_post[j]).researcher_id < rs1.len() by {
                    if j < ss_pre.len() {
                        assert(study_evolves(ss_pre[j], ss_post[j]));
                    } else {
                        assert(ss_post.last().researcher_id == rs_pre[i as int].id);
                    }
                }
                assert forall|t: int|
                    0 <= t < i + 1 implies ((#[trigger] rs1[t]).current_study_id matches Some(sid)
                        ==> (ss1[sid as int].start_time + ss1[sid as int].duration_days
                            <= self.time ==> (ss_post[sid as int].publication_status
                            != PublicationStatus::Pending && rs_post[t].current_study_id
                            is None))) by {
                    if let Some(sid) = rs1[t].current_study_id {
                        if ss1[sid as int].start_time + ss1[sid as int].duration_days
                            <= self.time {
                            if t == i {
                                assert(researcher_entry_wf(rs_pre, ss_pre, t));
                                assert(study_evolves(ss1[sid as int], ss_pre[sid as int]));
                            } else {
                                assert(study_evolves(ss_pre[sid as int], ss_post[sid as int]));
                            }
                        }
                    }
                }
            }
            i = i + 1;
        }
        // The study-id counter mirrors the record; then the clock ticks.
        self.next_study_id = self.studies.len() as u32;
        self.time = self.time + 1;
        proof {
            let ss = self.studies@;
            assert forall|j: int| 0 <= j < ss.len() implies #[trigger] study_entry_wf(
                ss,
                j,
                self.time as int,
            ) by {
                assert(study_entry_wf(ss, j, old(self).time as int));
            }
        }
    }

    /// The point-in-time aggregate over the current state: a pure read,
    /// linear in the number of studies, never mutating the world. With zero
    /// studies every count is zero and the mean effect is zero — there is
    /// no division by zero.
    pub fn summarize(&self) -> (r: Summary)
        requires
            self.wf(),
        ensures
            r.time == self.time,
            r.number_of_studies == self.studies@.len(),
            r.number_of_researchers == self.researchers@.len(),
            r.number_of_published_studies == count_status(
                self.studies@,
                PublicationStatus::Published,
            ),
            r.number_of_unpublished_studies == count_status(
                self.studies@,
                PublicationStatus::Unpublished,
            ),
            r.number_of_originals == count_type(self.studies@, StudyType::Original),
            r.number_of_reproductions == count_type(self.studies@, StudyType::Reproduction),
            r.number_of_replications == count_type(self.studies@, StudyType::Replication),
            r.number_of_confirmed == count_confirmation(
                self.studies@,
                Some(ConfirmationStatus::Confirmed),
            ),
            r.number_of_disconfirmed == count_confirmation(
                self.studies@,
                Some(ConfirmationStatus::Disconfirmed),
            ),
            r.number_of_pending == count_confirmation(
                self.studies@,
                Option::<ConfirmationStatus>::None,
            ),
            r.avg_effect_size == avg_reported(self.studies@),
            self.studies@.len() == 0 ==> r.number_of_studies == 0
                && r.number_of_published_studies == 0 && r.number_of_unpublished_studies == 0
                && r.number_of_originals == 0 && r.number_of_reproductions == 0
                && r.number_of_replications == 0 && r.number_of_confirmed == 0
                && r.number_of_disconfirmed == 0 && r.number_of_pending == 0
                && r.avg_effect_size == 0,
    {
        let ghost ss = self.studies@;
        let mut published: u32 = 0;
        let mut unpublished: u32 = 0;
        let mut originals: u32 = 0;
        let mut reproductions: u32 = 0;
        let mut replications: u32 = 0;
        let mut confirmed: u32 = 0;
        let mut disconfirmed: u32 = 0;
        let mut pending: u32 = 0;
        let mut sum: i64 = 0;
        let mut j: usize = 0;
        while j < self.studies.len()
            invariant
                j <= ss.len(),
                self.studies@ == ss,
                self.wf(),
                published == count_status(ss.take(j as int), PublicationStatus::Published),
                unpublished == count_status(ss.take(j as int), PublicationStatus::Unpublished),
                originals == count_type(ss.take(j as int), StudyType::Original),
                reproductions == count_type(ss.take(j as int), StudyType::Reproduction),
                replications == count_type(ss.take(j as int), StudyType::Replication),
                confirmed == count_confirmation(
                    ss.take(j as int),
                    Some(ConfirmationStatus::Confirmed),
                ),
                disconfirmed == count_confirmation(
                    ss.take(j as int),
                    Some(ConfirmationStatus::Disconfirmed),
                ),
                pending == count_confirmation(ss.take(j as int), Option::<ConfirmationStatus>::None),
                published <= j && unpublished <= j && originals <= j && reproductions <= j
                    && replications <= j && confirmed <= j && disconfirmed <= j && pending <= j,
                sum == sum_reported(ss.take(j as int)),
                -(j as int) * EFFECT_SIZE_MAX_MICRO <= sum <= (j as int) * EFFECT_SIZE_MAX_MICRO,
            decreases ss.len() - j,
        {
            proof {
                assert(study_entry_wf(ss, j as int, self.time as int));
                assert(ss.take(j as int + 1).drop_last() =~= ss.take(j as int));
                assert(ss.take(j as int + 1).last() == ss[j as int]);
            }
            let s = self.studies[j];
            match s.publication_status {
                PublicationStatus::Published => published = published + 1,
                PublicationStatus::Unpublished => unpublished = unpublished + 1,
                PublicationStatus::Pending => {},
            }
            match s.study_type {
                StudyType::Original => originals = originals + 1,
                StudyType::Reproduction => reproductions = reproductions + 1,
                StudyType::Replication => replications = replications + 1,
            }
            match s.confirmation_status {
                Some(ConfirmationStatus::Confirmed) => confirmed = confirmed + 1,
                Some(ConfirmationStatus::Disconfirmed) => disconfirmed = disconfirmed + 1,
                None => pending = pending + 1,
            }
            sum = sum + s.reported_effect_size;
            j = j + 1;
        }
        proof {
            assert(ss.take(ss.len() as int) =~= ss);
        }
        let n = self.studies.len();
        let avg: i64 = if n == 0 {
            0
        } else if sum >= 0 {
            ((sum as u64) / (n as u64)) as i64
        } else {
            -((((-sum) as u64) / (n as u64)) as i64)
        };
        Summary {
            time: self.time,
            number_of_studies: n as u32,
            number_of_researchers: self.researchers.len() as u32,
            number_of_published_studies: published,
            number_of_unpublished_studies: unpublished,
            number_of_reproductions: reproductions,
            number_of_replications: replications,
            number_of_originals: originals,
            number_of_confirmed: confirmed,
            number_of_disconfirmed: disconfirmed,
            number_of_pending: pending,
            avg_effect_size: avg,
        }
    }
}

} // verus!
