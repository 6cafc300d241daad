//! End-to-end tests of the simulation core: the random draw service, the
//! stepping loop, the summary read-model, the publication-bias policy, and
//! the serialization round trip.

use insilico_social_core::Academia;
use insilico_social_core::Agent;
use insilico_social_core::ConfirmationStatus;
use insilico_social_core::Model;
use insilico_social_core::PublicationStatus;
use insilico_social_core::RandomDrawService;
use insilico_social_core::SimError;
use insilico_social_core::Study;
use insilico_social_core::StudyType;
use insilico_social_core::PPM_SCALE;

fn fresh_original(sampled: i64) -> Study {
    Study {
        id: 0,
        start_time: 0,
        study_type: StudyType::Original,
        researcher_id: 0,
        true_effect_size: sampled,
        sampled_effect_size: sampled,
        observed_effect_size: sampled,
        reported_effect_size: sampled,
        duration_days: 5,
        publication_status: PublicationStatus::Pending,
        original_study_id: None,
        confirmation_status: None,
    }
}

#[test]
fn bernoulli_rate_matches_probability() {
    let mut rng = RandomDrawService::new(42);
    let p = 300_000u32; // 0.3
    let n = 10_000;
    let mut hits = 0u32;
    for _ in 0..n {
        if rng.bernoulli(p).unwrap() {
            hits += 1;
        }
    }
    // Expected rate 0.3; allow a generous statistical tolerance of 0.03.
    assert!(hits > 2_700 && hits < 3_300, "observed {hits} of {n}");
}

#[test]
fn bernoulli_edges_are_deterministic() {
    let mut rng = RandomDrawService::new(7);
    for _ in 0..100 {
        assert_eq!(rng.bernoulli(0), Ok(false));
        assert_eq!(rng.bernoulli(PPM_SCALE), Ok(true));
    }
    assert_eq!(rng.bernoulli(PPM_SCALE + 1), Err(SimError::InvalidParameter));
}

#[test]
fn uniform_int_stays_in_range_and_rejects_bad_range() {
    let mut rng = RandomDrawService::new(9);
    let mut seen_low = false;
    let mut seen_high = false;
    for _ in 0..1_000 {
        let v = rng.uniform_int(-3, 3).unwrap();
        assert!((-3..=3).contains(&v));
        if v < 0 {
            seen_low = true;
        }
        if v > 0 {
            seen_high = true;
        }
    }
    // A draw service that handed back a constant would fail this.
    assert!(seen_low && seen_high);
    assert_eq!(rng.uniform_int(5, 4), Err(SimError::InvalidParameter));
    assert_eq!(rng.uniform_u32(5, 4), Err(SimError::InvalidParameter));
}

#[test]
fn summarize_on_empty_world_is_all_zero() {
    let academia = Academia::new();
    let s = academia.summarize();
    assert_eq!(s.time, 0);
    assert_eq!(s.number_of_studies, 0);
    assert_eq!(s.number_of_researchers, 0);
    assert_eq!(s.number_of_published_studies, 0);
    assert_eq!(s.number_of_unpublished_studies, 0);
    assert_eq!(s.number_of_originals, 0);
    assert_eq!(s.number_of_reproductions, 0);
    assert_eq!(s.number_of_replications, 0);
    assert_eq!(s.number_of_confirmed, 0);
    assert_eq!(s.number_of_disconfirmed, 0);
    assert_eq!(s.number_of_pending, 0);
    assert_eq!(s.avg_effect_size, 0);
}

#[test]
fn scenario_fresh_world_init_five() {
    let mut rng = RandomDrawService::new(1);
    let mut academia = Academia::new();
    academia.init(5, &mut rng);
    let s = academia.summarize();
    assert_eq!(s.number_of_researchers, 5);
    assert_eq!(s.number_of_studies, 0);
}

#[test]
fn scenario_seeded_hundred_steps() {
    let mut rng = RandomDrawService::new(1234);
    let mut academia = Academia::new();
    academia.init(5, &mut rng);
    for expected in 0..100u32 {
        assert_eq!(academia.time, expected);
        academia.step(&mut rng);
        assert_eq!(academia.time, expected + 1);
        // Id counters always equal the totals admitted and created.
        assert_eq!(academia.next_researcher_id as usize, academia.researchers.len());
        assert_eq!(academia.next_study_id as usize, academia.studies.len());
    }
    assert_eq!(academia.time, 100);
}

#[test]
fn identical_seeds_reproduce_identical_trajectories() {
    let mut run = |seed: u64| {
        let mut rng = RandomDrawService::new(seed);
        let mut academia = Academia::new();
        academia.init(4, &mut rng);
        for _ in 0..60 {
            academia.step(&mut rng);
        }
        academia.serialize()
    };
    assert_eq!(run(99), run(99));
    // Different seeds should diverge somewhere in the record.
    assert_ne!(run(99), run(100));
}

#[test]
fn publication_status_decided_at_most_once() {
    let mut rng = RandomDrawService::new(77);
    let mut academia = Academia::new();
    academia.init(8, &mut rng);
    for _ in 0..40 {
        academia.step(&mut rng);
    }
    let decided: Vec<(u32, PublicationStatus)> = academia
        .studies
        .iter()
        .filter(|s| s.publication_status != PublicationStatus::Pending)
        .map(|s| (s.id, s.publication_status))
        .collect();
    assert!(!decided.is_empty(), "expected some decided studies after 40 steps");
    for _ in 0..40 {
        academia.step(&mut rng);
    }
    for (id, status) in decided {
        assert_eq!(academia.studies[id as usize].publication_status, status);
    }
}

#[test]
fn repeats_carry_confirmation_once_decided() {
    let mut rng = RandomDrawService::new(555);
    let mut academia = Academia::new();
    academia.init(10, &mut rng);
    for _ in 0..70 {
        academia.step(&mut rng);
    }
    let mut seen_repeat = false;
    for s in &academia.studies {
        match s.study_type {
            StudyType::Original => {
                assert!(s.original_study_id.is_none());
                assert!(s.confirmation_status.is_none());
            }
            StudyType::Reproduction | StudyType::Replication => {
                assert!(s.original_study_id.is_some());
                if s.publication_status != PublicationStatus::Pending {
                    seen_repeat = true;
                    assert!(s.confirmation_status.is_some());
                }
            }
        }
    }
    assert!(seen_repeat, "expected a finished repeat study after 70 steps");
}

#[test]
fn serialization_round_trip_is_identity() {
    let mut rng = RandomDrawService::new(2024);
    let mut academia = Academia::new();
    academia.init(6, &mut rng);
    for _ in 0..50 {
        academia.step(&mut rng);
    }
    let record = academia.serialize();
    let restored = Academia::deserialize(&record).expect("a serialized world deserializes");
    assert_eq!(restored, academia);
    assert_eq!(restored.time, academia.time);
    assert_eq!(restored.next_study_id, academia.next_study_id);
    assert_eq!(restored.next_researcher_id, academia.next_researcher_id);
}

#[test]
fn deserialize_rejects_malformed_records() {
    assert!(Academia::deserialize(&vec![1, 2]).is_none());
    // A researcher count with no researcher blocks behind it.
    assert!(Academia::deserialize(&vec![0, 0, 3, 3]).is_none());
    // A negative count.
    assert!(Academia::deserialize(&vec![0, 0, 0, -1]).is_none());
    // Trailing garbage after a well-formed empty world.
    assert!(Academia::deserialize(&vec![0, 0, 0, 0, 0, 7]).is_none());
    // The canonical empty world round-trips.
    let empty = Academia::new();
    assert_eq!(Academia::deserialize(&empty.serialize()), Some(empty));
}

#[test]
fn scenario_significant_original_is_published_deterministically() {
    for seed in 0..20 {
        let mut rng = RandomDrawService::new(seed);
        let mut study = fresh_original(500_000); // 0.5, above the 0.05 threshold
        study.determine_publication_status(&mut rng).unwrap();
        assert_eq!(study.publication_status, PublicationStatus::Published);
    }
}

#[test]
fn scenario_null_original_published_at_file_drawer_rate() {
    let mut rng = RandomDrawService::new(31337);
    let n = 10_000;
    let mut published = 0u32;
    for _ in 0..n {
        let mut study = fresh_original(0);
        study.determine_publication_status(&mut rng).unwrap();
        match study.publication_status {
            PublicationStatus::Published => published += 1,
            PublicationStatus::Unpublished => {}
            PublicationStatus::Pending => panic!("the decision must leave Pending"),
        }
    }
    // Expected rate 0.009 of 10,000 = 90; allow a wide statistical band.
    assert!(published >= 40 && published <= 160, "observed {published} of {n}");
}

#[test]
fn repeat_without_confirmation_is_an_invariant_violation() {
    let mut rng = RandomDrawService::new(5);
    let mut study = fresh_original(100_000);
    study.id = 9;
    study.study_type = StudyType::Replication;
    study.original_study_id = Some(3);
    let before = study;
    let result = study.determine_publication_status(&mut rng);
    assert_eq!(result, Err(SimError::InvariantViolation { study_id: 9 }));
    assert_eq!(study, before);
}

#[test]
fn confirmation_policy_is_pure_and_tolerance_based() {
    let repeat = {
        let mut s = fresh_original(400_000);
        s.study_type = StudyType::Reproduction;
        s.original_study_id = Some(0);
        s
    };
    let close_original = fresh_original(430_000);
    let far_original = fresh_original(-400_000);
    assert_eq!(
        repeat.determine_confirmation(&close_original),
        ConfirmationStatus::Confirmed
    );
    assert_eq!(
        repeat.determine_confirmation(&far_original),
        ConfirmationStatus::Disconfirmed
    );
    // Same sign and both significant confirms even outside the tolerance.
    let same_sign = fresh_original(900_000);
    assert_eq!(
        repeat.determine_confirmation(&same_sign),
        ConfirmationStatus::Confirmed
    );
}

#[test]
fn average_effect_size_is_exact() {
    let mut academia = Academia::new();
    let mut s0 = fresh_original(100_000);
    s0.id = 0;
    let mut s1 = fresh_original(250_000);
    s1.id = 1;
    academia.studies.push(s0);
    academia.studies.push(s1);
    academia.next_study_id = 2;
    let summary = academia.summarize();
    assert_eq!(summary.number_of_studies, 2);
    assert_eq!(summary.avg_effect_size, 175_000);
    // Rounding is toward zero, also for negative means.
    let mut s2 = fresh_original(-100_001);
    s2.id = 2;
    academia.studies.push(s2);
    academia.next_study_id = 3;
    assert_eq!(academia.summarize().avg_effect_size, 83_333);
}

#[test]
fn traits_expose_agents_and_the_model() {
    let mut rng = RandomDrawService::new(11);
    let mut academia = Academia::new();
    assert!(Model::init(&mut academia, 3, &mut rng));
    assert!(Model::step(&mut academia, &mut rng));
    assert_eq!(academia.time, 1);
    let record = Model::serialize(&academia);
    assert_eq!(Some(academia), Academia::deserialize(&record));
    let mut academia2 = Academia::new();
    academia2.init(3, &mut rng);
    let agent = academia2.researchers[2];
    assert_eq!(agent.get_id(), 2);
    let block = Agent::serialize(&agent);
    assert_eq!(block.len(), 9);
    assert_eq!(block[0], 2);
}
