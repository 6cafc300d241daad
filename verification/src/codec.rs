//! Full-state serialization of the world into a flat, self-describing token
//! record, and its inverse. Every field of the data model appears in a
//! fixed position of a fixed-arity block, so any boundary layer can
//! transcode the record into its host's native representation.
//!
//! The encoding is specified by `enc_academia`, the decoding by
//! `dec_academia`, and `lemma_round_trip` proves that decoding an encoding
//! reproduces the world field-for-field.

use vstd::prelude::*;

use crate::academia::Academia;
use crate::researcher::Researcher;
use crate::study::ConfirmationStatus;
use crate::study::PublicationStatus;
use crate::study::Study;
use crate::study::StudyType;

verus! {

/// The mathematical model of a world: the view of `Academia`.
#[verifier::ext_equal]
pub ghost struct WorldModel {
    pub time: u32,
    pub next_study_id: u32,
    pub next_researcher_id: u32,
    pub researchers: Seq<Researcher>,
    pub studies: Seq<Study>,
}

impl View for Academia {
    type V = WorldModel;

    open spec fn view(&self) -> WorldModel {
        WorldModel {
            time: self.time,
            next_study_id: self.next_study_id,
            next_researcher_id: self.next_researcher_id,
            researchers: self.researchers@,
            studies: self.studies@,
        }
    }
}

/// A token holding a `u32` value.
pub open spec fn in_u32(v: i64) -> bool {
    0 <= v <= u32::MAX
}

pub open spec fn study_type_tag(ty: StudyType) -> i64 {
    match ty {
        StudyType::Original => 0,
        StudyType::Reproduction => 1,
        StudyType::Replication => 2,
    }
}

pub open spec fn publication_tag(st: PublicationStatus) -> i64 {
    match st {
        PublicationStatus::Pending => 0,
        PublicationStatus::Published => 1,
        PublicationStatus::Unpublished => 2,
    }
}

pub open spec fn confirmation_tag(c: Option<ConfirmationStatus>) -> i64 {
    match c {
        None => 0,
        Some(ConfirmationStatus::Confirmed) => 1,
        Some(ConfirmationStatus::Disconfirmed) => 2,
    }
}

/// The nine-token block of one researcher.
pub open spec fn enc_researcher(r: Researcher) -> Seq<i64> {
    seq![
        r.id as i64,
        if r.current_study_id is Some {
            1i64
        } else {
            0i64
        },
        match r.current_study_id {
            Some(v) => v as i64,
            None => 0i64,
        },
        r.prob_reproduce as i64,
        r.prob_replicate as i64,
        r.prob_open_original as i64,
        r.prob_open_repeating as i64,
        r.odds_repeat_open as i64,
        r.prob_closed_has_data as i64,
    ]
}

/// The thirteen-token block of one study.
pub open spec fn enc_study(s: Study) -> Seq<i64> {
    seq![
        s.id as i64,
        s.start_time as i64,
        study_type_tag(s.study_type),
        s.researcher_id as i64,
        s.true_effect_size,
        s.sampled_effect_size,
        s.observed_effect_size,
        s.reported_effect_size,
        s.duration_days as i64,
        publication_tag(s.publication_status),
        if s.original_study_id is Some {
            1i64
        } else {
            0i64
        },
        match s.original_study_id {
            Some(v) => v as i64,
            None => 0i64,
        },
        confirmation_tag(s.confirmation_status),
    ]
}

pub open spec fn enc_researchers(rs: Seq<Researcher>) -> Seq<i64>
    decreases rs.len(),
{
    if rs.len() == 0 {
        Seq::empty()
    } else {
        enc_researcher(rs.first()) + enc_researchers(rs.drop_first())
    }
}

pub open spec fn enc_studies(ss: Seq<Study>) -> Seq<i64>
    decreases ss.len(),
{
    if ss.len() == 0 {
        Seq::empty()
    } else {
        enc_study(ss.first()) + enc_studies(ss.drop_first())
    }
}

/// The whole record: a header of clock, counters and the researcher count,
/// the researcher blocks, the study count, then the study blocks.
pub open spec fn enc_academia(w: WorldModel) -> Seq<i64> {
    seq![
        w.time as i64,
        w.next_study_id as i64,
        w.next_researcher_id as i64,
        w.researchers.len() as i64,
    ] + enc_researchers(w.researchers) + seq![w.studies.len() as i64] + enc_studies(w.studies)
}

/// Decodes one nine-token researcher block, insisting on the canonical
/// form (a zero placeholder where no study is linked).
pub open spec fn dec_researcher(t: Seq<i64>) -> Option<Researcher> {
    if t.len() != 9 {
        None
    } else if !(in_u32(t[0]) && (t[1] == 0 || t[1] == 1) && in_u32(t[2]) && in_u32(t[3]) && in_u32(
        t[4],
    ) && in_u32(t[5]) && in_u32(t[6]) && in_u32(t[7]) && in_u32(t[8])) {
        None
    } else if t[1] == 0 && t[2] != 0 {
        None
    } else {
        Some(
            Researcher {
                id: t[0] as u32,
                current_study_id: if t[1] == 1 {
                    Some(t[2] as u32)
                } else {
                    None
                },
                prob_reproduce: t[3] as u32,
                prob_replicate: t[4] as u32,
                prob_open_original: t[5] as u32,
                prob_open_repeating: t[6] as u32,
                odds_repeat_open: t[7] as u32,
                prob_closed_has_data: t[8] as u32,
            },
        )
    }
}

/// Decodes one thirteen-token study block.
pub open spec fn dec_study(t: Seq<i64>) -> Option<Study> {
    if t.len() != 13 {
        None
    } else if !(in_u32(t[0]) && in_u32(t[1]) && (0 <= t[2] <= 2) && in_u32(t[3]) && in_u32(t[8])
        && (0 <= t[9] <= 2) && (t[10] == 0 || t[10] == 1) && in_u32(t[11]) && (0 <= t[12] <= 2)) {
        None
    } else if t[10] == 0 && t[11] != 0 {
        None
    } else {
        Some(
            Study {
                id: t[0] as u32,
                start_time: t[1] as u32,
                study_type: if t[2] == 0 {
                    StudyType::Original
                } else if t[2] == 1 {
                    StudyType::Reproduction
                } else {
                    StudyType::Replication
                },
                researcher_id: t[3] as u32,
                true_effect_size: t[4],
                sampled_effect_size: t[5],
                observed_effect_size: t[6],
                reported_effect_size: t[7],
                duration_days: t[8] as u32,
                publication_status: if t[9] == 0 {
                    PublicationStatus::Pending
                } else if t[9] == 1 {
                    PublicationStatus::Published
                } else {
                    PublicationStatus::Unpublished
                },
                original_study_id: if t[10] == 1 {
                    Some(t[11] as u32)
                } else {
                    None
                },
                confirmation_status: if t[12] == 0 {
                    None
                } else if t[12] == 1 {
                    Some(ConfirmationStatus::Confirmed)
                } else {
                    Some(ConfirmationStatus::Disconfirmed)
                },
            },
        )
    }
}

/// Decodes `n` researcher blocks, returning them and the leftover tokens.
pub open spec fn dec_researchers(t: Seq<i64>, n: nat) -> Option<(Seq<Researcher>, Seq<i64>)>
    decreases n,
{
    if n == 0 {
        Some((Seq::empty(), t))
    } else if t.len() < 9 {
        None
    } else {
        match dec_researcher(t.take(9)) {
            Some(r) => match dec_researchers(t.skip(9), (n - 1) as nat) {
                Some(p) => Some((seq![r] + p.0, p.1)),
                None => None,
            },
            None => None,
        }
    }
}

/// Decodes `n` study blocks, returning them and the leftover tokens.
pub open spec fn dec_studies(t: Seq<i64>, n: nat) -> Option<(Seq<Study>, Seq<i64>)>
    decreases n,
{
    if n == 0 {
        Some((Seq::empty(), t))
    } else if t.len() < 13 {
        None
    } else {
        match dec_study(t.take(13)) {
            Some(s) => match dec_studies(t.skip(13), (n - 1) as nat) {
                Some(p) => Some((seq![s] + p.0, p.1)),
                None => None,
            },
            None => None,
        }
    }
}

/// Decodes a whole record; anything but a canonical, fully consumed record
/// is rejected.
pub open spec fn dec_academia(t: Seq<i64>) -> Option<WorldModel> {
    if t.len() < 4 {
        None
    } else if !(in_u32(t[0]) && in_u32(t[1]) && in_u32(t[2]) && 0 <= t[3]) {
        None
    } else if t[3] > (t.len() - 4) / 9 {
        None
    } else {
        match dec_researchers(t.skip(4), t[3] as nat) {
            Some(p1) => {
                if p1.1.len() < 1 || !(0 <= p1.1[0]) || p1.1[0] > (p1.1.len() - 1) / 13 {
                    None
                } else {
                    match dec_studies(p1.1.skip(1), p1.1[0] as nat) {
                        Some(p2) => {
                            if p2.1.len() == 0 {
                                Some(
                                    WorldModel {
                                        time: t[0] as u32,
                                        next_study_id: t[1] as u32,
                                        next_researcher_id: t[2] as u32,
                                        researchers: p1.0,
                                        studies: p2.0,
                                    },
                                )
                            } else {
                                None
                            }
                        },
                        None => None,
                    }
                }
            },
            None => None,
        }
    }
}

/// Appending one researcher to the population appends its block to the
/// encoding.
pub proof fn lemma_enc_researchers_push(rs: Seq<Researcher>, r: Researcher)
    ensures
        enc_researchers(rs.push(r)) == enc_researchers(rs) + enc_researcher(r),
    decreases rs.len(),
{
    if rs.len() == 0 {
        assert(rs.push(r).first() == r);
        assert(rs.push(r).drop_first() =~= Seq::<Researcher>::empty());
        assert(enc_researchers(Seq::<Researcher>::empty()) == Seq::<i64>::empty());
        assert(enc_researchers(rs.push(r)) =~= enc_researchers(rs) + enc_researcher(r));
    } else {
        assert(rs.push(r).first() == rs.first());
        assert(rs.push(r).drop_first() =~= rs.drop_first().push(r));
        lemma_enc_researchers_push(rs.drop_first(), r);
        assert(enc_researchers(rs.push(r)) =~= enc_researchers(rs) + enc_researcher(r));
    }
}

/// The researcher section is nine tokens per researcher.
pub proof fn lemma_enc_researchers_len(rs: Seq<Researcher>)
    ensures
        enc_researchers(rs).len() == 9 * rs.len(),
    decreases rs.len(),
{
    if rs.len() > 0 {
        lemma_enc_researchers_len(rs.drop_first());
    }
}

/// The study section is thirteen tokens per study.
pub proof fn lemma_enc_studies_len(ss: Seq<Study>)
    ensures
        enc_studies(ss).len() == 13 * ss.len(),
    decreases ss.len(),
{
    if ss.len() > 0 {
        lemma_enc_studies_len(ss.drop_first());
    }
}

/// Appending one study to the record appends its block to the encoding.
pub proof fn lemma_enc_studies_push(ss: Seq<Study>, s: Study)
    ensures
        enc_studies(ss.push(s)) == enc_studies(ss) + enc_study(s),
    decreases ss.len(),
{
    if ss.len() == 0 {
        assert(ss.push(s).first() == s);
        assert(ss.push(s).drop_first() =~= Seq::<Study>::empty());
        assert(enc_studies(Seq::<Study>::empty()) == Seq::<i64>::empty());
        assert(enc_studies(ss.push(s)) =~= enc_studies(ss) + enc_study(s));
    } else {
        assert(ss.push(s).first() == ss.first());
        assert(ss.push(s).drop_first() =~= ss.drop_first().push(s));
        lemma_enc_studies_push(ss.drop_first(), s);
        assert(enc_studies(ss.push(s)) =~= enc_studies(ss) + enc_study(s));
    }
}

/// Decoding researcher blocks consumes exactly what encoding produced and
/// hands back the researchers and the leftover unchanged.
pub proof fn lemma_dec_enc_researchers(rs: Seq<Researcher>, rest: Seq<i64>)
    ensures
        dec_researchers(enc_researchers(rs) + rest, rs.len()) == Some((rs, rest)),
    decreases rs.len(),
{
    let t = enc_researchers(rs) + rest;
    if rs.len() == 0 {
        assert(t =~= rest);
    } else {
        let head = rs.first();
        assert(t.take(9) =~= enc_researcher(head));
        assert(dec_researcher(enc_researcher(head)) == Some(head));
        assert(t.skip(9) =~= enc_researchers(rs.drop_first()) + rest);
        lemma_dec_enc_researchers(rs.drop_first(), rest);
        assert(seq![head] + rs.drop_first() =~= rs);
    }
}

/// Decoding study blocks consumes exactly what encoding produced and hands
/// back the studies and the leftover unchanged.
pub proof fn lemma_dec_enc_studies(ss: Seq<Study>, rest: Seq<i64>)
    ensures
        dec_studies(enc_studies(ss) + rest, ss.len()) == Some((ss, rest)),
    decreases ss.len(),
{
    let t = enc_studies(ss) + rest;
    if ss.len() == 0 {
        assert(t =~= rest);
    } else {
        let head = ss.first();
        assert(t.take(13) =~= enc_study(head));
        assert(dec_study(enc_study(head)) == Some(head));
        assert(t.skip(13) =~= enc_studies(ss.drop_first()) + rest);
        lemma_dec_enc_studies(ss.drop_first(), rest);
        assert(seq![head] + ss.drop_first() =~= ss);
    }
}

/// The round trip: decoding the encoding of any world whose collections fit
/// the id space reproduces that world, field-for-field.
pub proof fn lemma_round_trip(w: WorldModel)
    requires
        w.researchers.len() <= u32::MAX,
        w.studies.len() <= u32::MAX,
    ensures
        dec_academia(enc_academia(w)) == Some(w),
{
    let t = enc_academia(w);
    let big_r = w.researchers.len() as int;
    let big_s = w.studies.len() as int;
    lemma_enc_researchers_len(w.researchers);
    lemma_enc_studies_len(w.studies);
    let header = seq![
        w.time as i64,
        w.next_study_id as i64,
        w.next_researcher_id as i64,
        w.researchers.len() as i64,
    ];
    let mid = seq![w.studies.len() as i64];
    let rest = mid + enc_studies(w.studies);
    assert(t =~= header + (enc_researchers(w.researchers) + rest));
    assert(t.len() == 4 + 9 * big_r + 1 + 13 * big_s);
    assert(t[0] == w.time as i64);
    assert(t[1] == w.next_study_id as i64);
    assert(t[2] == w.next_researcher_id as i64);
    assert(t[3] == big_r);
    assert(t[3] <= (t.len() - 4) / 9) by {
        assert((9 * big_r + (1 + 13 * big_s)) / 9 >= big_r) by (nonlinear_arith)
            requires
                big_r >= 0,
                big_s >= 0,
        ;
    }
    assert(t.skip(4) =~= enc_researchers(w.researchers) + rest);
    lemma_dec_enc_researchers(w.researchers, rest);
    assert(dec_researchers(t.skip(4), t[3] as nat) == Some((w.researchers, rest)));
    assert(rest[0] == big_s);
    assert(rest.len() == 1 + 13 * big_s);
    assert(rest[0] <= (rest.len() - 1) / 13) by {
        assert((13 * big_s) / 13 == big_s) by (nonlinear_arith)
            requires
                big_s >= 0,
        ;
    }
    assert(rest.skip(1) =~= enc_studies(w.studies) + Seq::<i64>::empty());
    lemma_dec_enc_studies(w.studies, Seq::<i64>::empty());
    assert(dec_studies(rest.skip(1), rest[0] as nat) == Some(
        (w.studies, Seq::<i64>::empty()),
    ));
    assert(dec_academia(t) matches Some(w2) && w2 =~= w);
}

/// Appends the nine-token block of one researcher.
pub(crate) fn push_researcher(out: &mut Vec<i64>, r: &Researcher)
    ensures
        final(out)@ == old(out)@ + enc_researcher(*r),
{
    let ghost base = out@;
    out.push(r.id as i64);
    match r.current_study_id {
        Some(v) => {
            out.push(1);
            out.push(v as i64);
        },
        None => {
            out.push(0);
            out.push(0);
        },
    }
    out.push(r.prob_reproduce as i64);
    out.push(r.prob_replicate as i64);
    out.push(r.prob_open_original as i64);
    out.push(r.prob_open_repeating as i64);
    out.push(r.odds_repeat_open as i64);
    out.push(r.prob_closed_has_data as i64);
    proof {
        assert(out@ =~= base + enc_researcher(*r));
    }
}

/// Appends the thirteen-token block of one study.
fn push_study(out: &mut Vec<i64>, s: &Study)
    ensures
        final(out)@ == old(out)@ + enc_study(*s),
{
    let ghost base = out@;
    out.push(s.id as i64);
    out.push(s.start_time as i64);
    match s.study_type {
        StudyType::Original => out.push(0),
        StudyType::Reproduction => out.push(1),
        StudyType::Replication => out.push(2),
    }
    out.push(s.researcher_id as i64);
    out.push(s.true_effect_size);
    out.push(s.sampled_effect_size);
    out.push(s.observed_effect_size);
    out.push(s.reported_effect_size);
    out.push(s.duration_days as i64);
    match s.publication_status {
        PublicationStatus::Pending => out.push(0),
        PublicationStatus::Published => out.push(1),
        PublicationStatus::Unpublished => out.push(2),
    }
    match s.original_study_id {
        Some(v) => {
            out.push(1);
            out.push(v as i64);
        },
        None => {
            out.push(0);
            out.push(0);
        },
    }
    match s.confirmation_status {
        None => out.push(0),
        Some(ConfirmationStatus::Confirmed) => out.push(1),
        Some(ConfirmationStatus::Disconfirmed) => out.push(2),
    }
    proof {
        assert(out@ =~= base + enc_study(*s));
    }
}

/// Reads one nine-token researcher block starting at `pos`.
fn parse_researcher(data: &Vec<i64>, pos: usize) -> (r: Option<Researcher>)
    requires
        pos + 9 <= data.len(),
    ensures
        match r {
            Some(x) => dec_researcher(data@.subrange(pos as int, pos as int + 9)) == Some(x),
            None => dec_researcher(data@.subrange(pos as int, pos as int + 9)) is None,
        },
{
    let ghost t = data@.subrange(pos as int, pos as int + 9);
    let v0 = data[pos];
    let v1 = data[pos + 1];
    let v2 = data[pos + 2];
    let v3 = data[pos + 3];
    let v4 = data[pos + 4];
    let v5 = data[pos + 5];
    let v6 = data[pos + 6];
    let v7 = data[pos + 7];
    let v8 = data[pos + 8];
    let max = u32::MAX as i64;
    if v0 < 0 || v0 > max || !(v1 == 0 || v1 == 1) || v2 < 0 || v2 > max || v3 < 0 || v3 > max
        || v4 < 0 || v4 > max || v5 < 0 || v5 > max || v6 < 0 || v6 > max || v7 < 0 || v7 > max
        || v8 < 0 || v8 > max {
        return None;
    }
    if v1 == 0 && v2 != 0 {
        return None;
    }
    Some(
        Researcher {
            id: v0 as u32,
            current_study_id: if v1 == 1 {
                Some(v2 as u32)
            } else {
                None
            },
            prob_reproduce: v3 as u32,
            prob_replicate: v4 as u32,
            prob_open_original: v5 as u32,
            prob_open_repeating: v6 as u32,
            odds_repeat_open: v7 as u32,
            prob_closed_has_data: v8 as u32,
        },
    )
}

/// Reads one thirteen-token study block starting at `pos`.
fn parse_study(data: &Vec<i64>, pos: usize) -> (r: Option<Study>)
    requires
        pos + 13 <= data.len(),
    ensures
        match r {
            Some(x) => dec_study(data@.subrange(pos as int, pos as int + 13)) == Some(x),
            None => dec_study(data@.subrange(pos as int, pos as int + 13)) is None,
        },
{
    let ghost t = data@.subrange(pos as int, pos as int + 13);
    let v0 = data[pos];
    let v1 = data[pos + 1];
    let v2 = data[pos + 2];
    let v3 = data[pos + 3];
    let v4 = data[pos + 4];
    let v5 = data[pos + 5];
    let v6 = data[pos + 6];
    let v7 = data[pos + 7];
    let v8 = data[pos + 8];
    let v9 = data[pos + 9];
    let v10 = data[pos + 10];
    let v11 = data[pos + 11];
    let v12 = data[pos + 12];
    let max = u32::MAX as i64;
    if v0 < 0 || v0 > max || v1 < 0 || v1 > max || v2 < 0 || v2 > 2 || v3 < 0 || v3 > max || v8 < 0
        || v8 > max || v9 < 0 || v9 > 2 || !(v10 == 0 || v10 == 1) || v11 < 0 || v11 > max || v12
        < 0 || v12 > 2 {
        return None;
    }
    if v10 == 0 && v11 != 0 {
        return None;
    }
    Some(
        Study {
            id: v0 as u32,
            start_time: v1 as u32,
            study_type: if v2 == 0 {
                StudyType::Original
            } else if v2 == 1 {
                StudyType::Reproduction
            } else {
                StudyType::Replication
            },
            researcher_id: v3 as u32,
            true_effect_size: v4,
            sampled_effect_size: v5,
            observed_effect_size: v6,
            reported_effect_size: v7,
            duration_days: v8 as u32,
            publication_status: if v9 == 0 {
                PublicationStatus::Pending
            } else if v9 == 1 {
                PublicationStatus::Published
            } else {
                PublicationStatus::Unpublished
            },
            original_study_id: if v10 == 1 {
                Some(v11 as u32)
            } else {
                None
            },
            confirmation_status: if v12 == 0 {
                None
            } else if v12 == 1 {
                Some(ConfirmationStatus::Confirmed)
            } else {
                Some(ConfirmationStatus::Disconfirmed)
            },
        },
    )
}

impl Academia {
    /// Serializes the full state into the token record `enc_academia`
    /// specifies.
    pub fn serialize(&self) -> (r: Vec<i64>)
        requires
            self.wf(),
        ensures
            r@ == enc_academia(self@),
    {
        let mut out: Vec<i64> = Vec::new();
        out.push(self.time as i64);
        out.push(self.next_study_id as i64);
        out.push(self.next_researcher_id as i64);
        out.push(self.researchers.len() as i64);
        let ghost header = out@;
        let rs = &self.researchers;
        let mut i: usize = 0;
        while i < rs.len()
            invariant
                i <= rs@.len(),
                rs@.len() <= u32::MAX,
                out@ == header + enc_researchers(rs@.take(i as int)),
            decreases rs@.len() - i,
        {
            push_researcher(&mut out, &rs[i]);
            proof {
                assert(rs@.take(i as int + 1) =~= rs@.take(i as int).push(rs@[i as int]));
                lemma_enc_researchers_push(rs@.take(i as int), rs@[i as int]);
            }
            i = i + 1;
        }
        proof {
            assert(rs@.take(rs@.len() as int) =~= rs@);
        }
        out.push(self.studies.len() as i64);
        let ghost prefix = out@;
        let ss = &self.studies;
        let mut j: usize = 0;
        while j < ss.len()
            invariant
                j <= ss@.len(),
                ss@.len() <= u32::MAX,
                out@ == prefix + enc_studies(ss@.take(j as int)),
            decreases ss@.len() - j,
        {
            push_study(&mut out, &ss[j]);
            proof {
                assert(ss@.take(j as int + 1) =~= ss@.take(j as int).push(ss@[j as int]));
                lemma_enc_studies_push(ss@.take(j as int), ss@[j as int]);
            }
            j = j + 1;
        }
        proof {
            assert(ss@.take(ss@.len() as int) =~= ss@);
            assert(out@ =~= enc_academia(self@));
        }
        out
    }

    /// Parses a token record back into a world; exactly the records that
    /// `dec_academia` accepts are accepted, with the same result.
    pub fn deserialize(data: &Vec<i64>) -> (r: Option<Academia>)
        ensures
            match r {
                Some(b) => dec_academia(data@) == Some(b@),
                None => dec_academia(data@) is None,
            },
    {
        let ghost t = data@;
        if data.len() < 4 {
            return None;
        }
        let v0 = data[0];
        let v1 = data[1];
        let v2 = data[2];
        let v3 = data[3];
        let max = u32::MAX as i64;
        if v0 < 0 || v0 > max || v1 < 0 || v1 > max || v2 < 0 || v2 > max || v3 < 0 {
            return None;
        }
        if v3 as u64 > ((data.len() as u64) - 4) / 9 {
            return None;
        }
        let n = v3 as usize;
        let mut researchers: Vec<Researcher> = Vec::new();
        let mut pos: usize = 4;
        let mut i: usize = 0;
        while i < n
            invariant
                t == data@,
                i <= n,
                n == t[3],
                4 <= pos <= t.len(),
                pos == 4 + 9 * i,
                researchers@.len() == i,
                dec_researchers(t.skip(4), n as nat) == (match dec_researchers(
                    t.skip(pos as int),
                    (n - i) as nat,
                ) {
                    Some(p) => Some((researchers@ + p.0, p.1)),
                    None => None::<(Seq<Researcher>, Seq<i64>)>,
                }),
            decreases n - i,
        {
            if data.len() - pos < 9 {
                return None;
            }
            let parsed = parse_researcher(data, pos);
            proof {
                let cur = t.skip(pos as int);
                assert(cur.take(9) =~= t.subrange(pos as int, pos as int + 9));
                assert(cur.skip(9) =~= t.skip(pos as int + 9));
            }
            match parsed {
                Some(r) => {
                    researchers.push(r);
                    proof {
                        let cur = t.skip(pos as int);
                        let p_next = dec_researchers(t.skip(pos as int + 9), (n - i - 1) as nat);
                        if let Some(p) = p_next {
                            assert(researchers@ + p.0 =~= researchers@.drop_last() + (seq![r]
                                + p.0));
                        }
                    }
                    pos = pos + 9;
                    i = i + 1;
                },
                None => {
                    return None;
                },
            }
        }
        proof {
            assert(dec_researchers(t.skip(pos as int), 0nat) == Some(
                (Seq::<Researcher>::empty(), t.skip(pos as int)),
            ));
            assert(researchers@ + Seq::<Researcher>::empty() =~= researchers@);
            assert(dec_researchers(t.skip(4), n as nat) == Some(
                (researchers@, t.skip(pos as int)),
            ));
        }
        if data.len() - pos < 1 {
            return None;
        }
        let vm = data[pos];
        proof {
            assert(t.skip(pos as int)[0] == t[pos as int]);
        }
        if vm < 0 || vm as u64 > (((data.len() - pos) as u64) - 1) / 13 {
            return None;
        }
        let ghost rest1 = t.skip(pos as int);
        let m = vm as usize;
        pos = pos + 1;
        let mut studies: Vec<Study> = Vec::new();
        let mut j: usize = 0;
        proof {
            assert(rest1.skip(1) =~= t.skip(pos as int));
        }
        while j < m
            invariant
                t == data@,
                j <= m,
                1 <= pos <= t.len(),
                studies@.len() == j,
                dec_researchers(t.skip(4), t[3] as nat) == Some(
                    (researchers@, rest1),
                ),
                0 <= rest1[0],
                rest1[0] == m,
                dec_studies(rest1.skip(1), m as nat) == (match dec_studies(
                    t.skip(pos as int),
                    (m - j) as nat,
                ) {
                    Some(p) => Some((studies@ + p.0, p.1)),
                    None => None::<(Seq<Study>, Seq<i64>)>,
                }),
            decreases m - j,
        {
            if data.len() - pos < 13 {
                return None;
            }
            let parsed = parse_study(data, pos);
            proof {
                let cur = t.skip(pos as int);
                assert(cur.take(13) =~= t.subrange(pos as int, pos as int + 13));
                assert(cur.skip(13) =~= t.skip(pos as int + 13));
            }
            match parsed {
                Some(s) => {
                    studies.push(s);
                    proof {
                        let p_next = dec_studies(t.skip(pos as int + 13), (m - j - 1) as nat);
                        if let Some(p) = p_next {
                            assert(studies@ + p.0 =~= studies@.drop_last() + (seq![s] + p.0));
                        }
                    }
                    pos = pos + 13;
                    j = j + 1;
                },
                None => {
                    return None;
                },
            }
        }
        proof {
            assert(dec_studies(t.skip(pos as int), 0nat) == Some(
                (Seq::<Study>::empty(), t.skip(pos as int)),
            ));
            assert(studies@ + Seq::<Study>::empty() =~= studies@);
            assert(dec_studies(rest1.skip(1), m as nat) == Some((studies@, t.skip(pos as int))));
        }
        if pos != data.len() {
            proof {
                assert(t.skip(pos as int).len() != 0);
            }
            return None;
        }
        proof {
            assert(t.skip(pos as int).len() == 0);
        }
        let world = Academia {
            time: v0 as u32,
            next_study_id: v1 as u32,
            next_researcher_id: v2 as u32,
            researchers,
            studies,
        };
        proof {
            assert(dec_academia(t) matches Some(w) && w =~= world@);
        }
        Some(world)
    }
}

} // verus!
