use etterna_base::binary32::Binary32;
use etterna_base::judge::j4;
use etterna_base::judge::Judge;
use etterna_base::rescore::matching_scorer::MatchingScorer;
use etterna_base::rescore::naive_scorer::NaiveScorer;
use etterna_base::rescore::total_judged_notes;
use etterna_base::rescore::LaneAssignment;
use etterna_base::rescore::ScoringResult;
use etterna_base::rescore::ScoringSystem;
use etterna_base::wife::Contribution;
use etterna_base::wife::Wife;
use etterna_base::wife::Wife3;

fn bits(value: f32) -> Binary32 {
    Binary32::from_bits(value.to_bits())
}

fn number(value: Binary32) -> f32 {
    f32::from_bits(value.to_bits())
}

fn erf_approximation(x: f32) -> f32 {
    let a1 = 0.254829592;
    let a2 = -0.284496736;
    let a3 = 1.421413741;
    let a4 = -1.453152027;
    let a5 = 1.061405429;
    let p = 0.3275911;
    let sign = if x < 0.0 { -1.0 } else { 1.0 };
    let x = x.abs();
    let t = 1.0 / (1.0 + p * x);
    let y = 1.0 - (((((a5 * t + a4) * t) + a3) * t + a2) * t + a1) * t * (-x * x).exp();
    sign * y
}

fn wife3_curve(deviation: f32, judge: &Judge) -> f32 {
    let timing_scale = number(judge.timing_scale);
    let miss_weight = number(Wife3::miss_weight()) * 2.0;
    let ridic = 5.0 * timing_scale;
    let max_boo_weight = 180.0 * timing_scale;
    let maxms = (deviation * 1000.0).abs();
    if maxms <= ridic {
        return 1.0;
    }
    let zero = 65.0 * timing_scale.powf(0.75);
    let dev = 22.7 * timing_scale.powf(0.75);
    let score = if maxms <= zero {
        2.0 * erf_approximation((zero - maxms) / dev)
    } else if maxms <= max_boo_weight {
        (maxms - zero) * miss_weight / (max_boo_weight - zero)
    } else {
        miss_weight
    };
    score / 2.0
}

fn wife3(deviation: Binary32, judge: &Judge) -> f32 {
    match Wife::Wife3.calc_deviation(deviation, judge) {
        Contribution::Curve { deviation } => wife3_curve(number(deviation), judge),
        Contribution::Weight { weight } => number(weight),
    }
}

fn deviation_table(notes: &[f32], hits: &[f32]) -> Vec<Vec<Binary32>> {
    hits.iter()
        .map(|&hit| notes.iter().map(|&note| bits((hit - note).abs())).collect())
        .collect()
}

fn lane_score(system: ScoringSystem, notes: &[f32], hits: &[f32], judge: &Judge) -> f32 {
    let table = deviation_table(notes, hits);
    let assignment = system.assign(&table, notes.len(), judge);
    let mut sum = 0.0;
    for deviation in assignment.claimed_deviations(&table) {
        sum += wife3(deviation, judge);
    }
    sum += number(Wife3::miss_weight()) * system.num_penalties(&assignment) as f32;
    sum / system.num_judged_notes(&assignment) as f32
}

fn check_lane(notes: &[f32], hits: &[f32], target_naive: f32, target_matching: f32) {
    let judge = j4();
    let naive = lane_score(ScoringSystem::Naive, notes, hits, &judge);
    let matching = lane_score(ScoringSystem::Matching, notes, hits, &judge);
    println!("{} == {} ?", naive, target_naive);
    println!("{} == {} ?", matching, target_matching);
    assert!((naive - target_naive).abs() < 0.00001);
    assert!((matching - target_matching).abs() < 0.00001);
}

#[test]
fn test_scoring_systems() {
    let judge = j4();
    let wife = |deviation: f32| wife3(bits(deviation), &judge);

    check_lane(&[1.0, 2.0, 3.0, 4.0], &[1.0, 2.0, 3.0, 4.0], wife(0.0), wife(0.0));

    check_lane(
        &[1.0, 2.0, 3.0, 4.0],
        &[0.9, 3.1, 4.1],
        (wife(0.1) + wife(1.0) + wife(0.1) + wife(0.1)) / 4.0,
        (wife(0.1) + wife(1.0) + wife(0.1) + wife(0.1)) / 4.0,
    );

    check_lane(
        &[0.10, 0.20, 0.30, 0.40],
        &[0.09, 0.10, 0.30, 0.40],
        (wife(0.01) + wife(0.10) + wife(0.0) + wife(0.0)) / 4.0,
        (wife(0.0) + wife(0.11) + wife(0.0) + wife(0.0)) / 4.0,
    );

    check_lane(
        &[0.05, 0.10, 0.15, 0.20],
        &[0.01, 0.02, 0.03, 0.04, 0.05, 0.10, 0.15, 0.20],
        (wife(0.04) + wife(0.08) + wife(0.12) + wife(0.16)) / 4.0,
        (wife(0.0) * 4.0 + wife(1.0) * 4.0) / 8.0,
    );

    check_lane(
        &[0.05, 0.10, 0.15, 0.20],
        &[0.01, 0.02, 0.03, 0.04],
        (wife(0.04) + wife(0.08) + wife(0.12) + wife(0.16)) / 4.0,
        (wife(0.01) + wife(0.07) + wife(0.13) + wife(1.0) + wife(1.0)) / 5.0,
    );

    check_lane(&[0.05, 0.10, 0.15, 0.20], &[], wife(1.0), wife(1.0));
}

fn assignment_of(system: ScoringSystem, notes: &[f32], hits: &[f32]) -> LaneAssignment {
    system.assign(&deviation_table(notes, hits), notes.len(), &j4())
}

#[test]
fn identical_times_give_every_note_its_own_hit() {
    let times = [0.5f32, 1.0, 1.0, 1.0, 2.25, 3.0];
    for system in [ScoringSystem::Naive, ScoringSystem::Matching] {
        let table = deviation_table(&times, &times);
        let a = system.assign(&table, times.len(), &j4());
        let own: Vec<Option<usize>> = (0..times.len()).map(Some).collect();
        assert_eq!(a.note_of_hit, own);
        assert_eq!(a.hit_of_note, own);
        assert_eq!(a.num_misses(), 0);
        assert_eq!(a.num_stray_taps(), 0);
        assert_eq!(system.num_penalties(&a), 0);
        assert_eq!(system.num_judged_notes(&a), 6);
        for deviation in a.claimed_deviations(&table) {
            assert_eq!(number(deviation), 0.0);
        }
    }
}

#[test]
fn naive_and_matching_diverge_on_early_hits() {
    let notes = [0.05f32, 0.10, 0.15, 0.20];
    let hits = [0.01f32, 0.02, 0.03, 0.04];
    let naive = assignment_of(ScoringSystem::Naive, &notes, &hits);
    assert_eq!(naive.note_of_hit, vec![Some(0), Some(1), Some(2), Some(3)]);
    assert_eq!(naive.num_misses(), 0);
    assert_eq!(ScoringSystem::Naive.num_judged_notes(&naive), 4);

    let matching = assignment_of(ScoringSystem::Matching, &notes, &hits);
    assert_eq!(matching.note_of_hit, vec![None, Some(2), Some(1), Some(0)]);
    assert_eq!(matching.hit_of_note, vec![Some(3), Some(2), Some(1), None]);
    assert_eq!(matching.num_misses(), 1);
    assert_eq!(matching.num_stray_taps(), 1);
    assert_eq!(ScoringSystem::Matching.num_penalties(&matching), 2);
    assert_eq!(ScoringSystem::Matching.num_judged_notes(&matching), 5);
}

#[test]
fn naive_claims_first_of_equally_close_notes() {
    // The hit is as far from the first note as from the second.
    let a = assignment_of(ScoringSystem::Naive, &[1.0, 1.25], &[1.125]);
    assert_eq!(a.note_of_hit, vec![Some(0)]);
    assert_eq!(a.hit_of_note, vec![Some(0), None]);
    assert_eq!(a.num_misses(), 1);
}

#[test]
fn hits_outside_the_bad_window_claim_nothing() {
    for system in [ScoringSystem::Naive, ScoringSystem::Matching] {
        let a = assignment_of(system, &[1.0, 2.0], &[1.5, 5.0, f32::NAN, f32::INFINITY]);
        assert_eq!(a.note_of_hit, vec![None, None, None, None]);
        assert_eq!(a.num_misses(), 2);
        assert_eq!(a.num_stray_taps(), 4);
    }
    assert_eq!(
        ScoringSystem::Naive.num_judged_notes(&assignment_of(ScoringSystem::Naive, &[1.0, 2.0], &[5.0])),
        2
    );
    assert_eq!(
        ScoringSystem::Matching
            .num_judged_notes(&assignment_of(ScoringSystem::Matching, &[1.0, 2.0], &[5.0])),
        3
    );
}

#[test]
fn window_boundary_is_inclusive() {
    let judge = j4();
    let edge = number(judge.bad_window);
    let table = vec![vec![bits(edge)], vec![bits(f32::from_bits(edge.to_bits() + 1))]];
    let naive = NaiveScorer::assign(&table, 1, &judge);
    assert_eq!(naive.note_of_hit, vec![Some(0), None]);
    let table = vec![vec![bits(f32::from_bits(edge.to_bits() + 1))], vec![bits(edge)]];
    let matching = MatchingScorer::assign(&table, 1, &judge);
    assert_eq!(matching.note_of_hit, vec![None, Some(0)]);
}

#[test]
fn naive_pick_and_closest_free_pair() {
    let row = vec![bits(0.10), bits(0.02), bits(0.02), bits(0.5)];
    let window = j4().bad_window;
    assert_eq!(NaiveScorer::pick(&row, &vec![None, None, None, None], window), Some(1));
    assert_eq!(NaiveScorer::pick(&row, &vec![None, Some(0), None, None], window), Some(2));
    assert_eq!(NaiveScorer::pick(&row, &vec![None, Some(0), Some(1), None], window), Some(0));
    assert_eq!(NaiveScorer::pick(&row, &vec![Some(2), Some(0), Some(1), None], window), None);

    let table = vec![vec![bits(0.03), bits(0.01)], vec![bits(0.01), bits(0.04)]];
    assert_eq!(
        MatchingScorer::closest_free_pair(&table, &vec![None, None], &vec![None, None], window),
        Some((0, 1))
    );
    assert_eq!(
        MatchingScorer::closest_free_pair(&table, &vec![Some(1), None], &vec![None, Some(0)], window),
        Some((1, 0))
    );
    assert_eq!(
        MatchingScorer::closest_free_pair(&table, &vec![Some(1), Some(0)], &vec![Some(1), Some(0)], window),
        None
    );
}

#[test]
fn judged_notes_add_up_over_lanes() {
    let lane = |n: u64| ScoringResult { wifescore_sum: bits(0.0), num_judged_notes: n };
    assert_eq!(total_judged_notes(&vec![lane(3), lane(0), lane(7), lane(1)]), Some(11));
    assert_eq!(total_judged_notes(&vec![]), Some(0));
    assert_eq!(total_judged_notes(&vec![lane(u64::MAX), lane(1)]), None);
}
