use etterna_base::binary32::is_sorted;
use etterna_base::binary32::Binary32;
use etterna_base::judge::j1;
use etterna_base::judge::j2;
use etterna_base::judge::j3;
use etterna_base::judge::j4;
use etterna_base::judge::j5;
use etterna_base::judge::j6;
use etterna_base::judge::j7;
use etterna_base::judge::j8;
use etterna_base::judge::j9;
use etterna_base::judge::Judge;
use etterna_base::structs::Hit;
use etterna_base::structs::TapJudgement;
use etterna_base::wifescore::Wifescore;

fn bits(value: f32) -> Binary32 {
    Binary32::from_bits(value.to_bits())
}

fn number(value: Binary32) -> f32 {
    f32::from_bits(value.to_bits())
}

fn hit(deviation: f32) -> Hit {
    Hit::Hit { deviation: bits(deviation) }
}

const SAMPLES: [f32; 16] = [
    0.0,
    -0.0,
    1.0,
    -1.0,
    0.18,
    -0.18,
    1e-40,
    -1e-40,
    f32::MIN_POSITIVE,
    f32::MAX,
    f32::MIN,
    f32::INFINITY,
    f32::NEG_INFINITY,
    f32::NAN,
    0.0225,
    -3.5,
];

#[test]
fn comparisons_agree_with_the_machine() {
    for &a in &SAMPLES {
        assert_eq!(bits(a).is_nan(), a.is_nan());
        assert_eq!(bits(a).is_finite(), a.is_finite());
        assert_eq!(bits(a).abs().to_bits(), a.abs().to_bits());
        for &b in &SAMPLES {
            assert_eq!(bits(a).lt(bits(b)), a < b);
            assert_eq!(bits(a).le(bits(b)), a <= b);
            assert_eq!(bits(a).gt(bits(b)), a > b);
            assert_eq!(bits(a).ge(bits(b)), a >= b);
            assert_eq!(bits(a).same_number(bits(b)), a == b);
            let max = number(bits(a).max(bits(b)));
            let expected = a.max(b);
            assert!(max == expected || (max.is_nan() && expected.is_nan()));
        }
    }
    assert_eq!(number(Binary32::zero()), 0.0);
    assert_eq!(number(Binary32::infinity()), f32::INFINITY);
}

#[test]
fn is_sorted_tells_ascending_sequences() {
    let all = |values: &[f32]| -> Vec<Binary32> { values.iter().map(|&v| bits(v)).collect() };
    assert!(is_sorted(&all(&[])));
    assert!(is_sorted(&all(&[f32::NAN])));
    assert!(is_sorted(&all(&[-1.0, -0.0, 0.0, 0.0, 2.5, f32::INFINITY])));
    assert!(!is_sorted(&all(&[1.0, 0.5])));
    assert!(!is_sorted(&all(&[-1.0, -2.0])));
    assert!(!is_sorted(&all(&[1.0, f32::NAN, 2.0])));
}

#[test]
fn presets_hold_the_documented_windows() {
    let expected: [(&str, [f32; 9]); 9] = [
        ("J1", [0.03375, 0.0675, 0.135, 0.2025, 0.27, 0.375, 0.75, 0.075, 1.50]),
        ("J2", [0.029925, 0.05985, 0.1197, 0.17955, 0.2394, 0.3325, 0.665, 0.075, 1.33]),
        ("J3", [0.0261, 0.0522, 0.1044, 0.1566, 0.2088, 0.29, 0.58, 0.075, 1.16]),
        ("J4", [0.0225, 0.045, 0.09, 0.135, 0.18, 0.25, 0.5, 0.075, 1.00]),
        ("J5", [0.0189, 0.0378, 0.0756, 0.1134, 0.18, 0.21, 0.42, 0.075, 0.84]),
        ("J6", [0.01485, 0.0297, 0.0594, 0.0891, 0.18, 0.165, 0.33, 0.075, 0.66]),
        ("J7", [0.01125, 0.0225, 0.045, 0.0675, 0.18, 0.125, 0.25, 0.075, 0.50]),
        ("J8", [0.007425, 0.01485, 0.0297, 0.04455, 0.18, 0.0825, 0.25, 0.075, 0.33]),
        ("J9", [0.0045, 0.009, 0.018, 0.027, 0.18, 0.05, 0.25, 0.075, 0.20]),
    ];
    let judges: [Judge; 9] = [j1(), j2(), j3(), j4(), j5(), j6(), j7(), j8(), j9()];
    for (judge, (name, w)) in judges.iter().zip(expected.iter()) {
        assert_eq!(judge.name, *name);
        assert_eq!(number(judge.marvelous_window), w[0]);
        assert_eq!(number(judge.perfect_window), w[1]);
        assert_eq!(number(judge.great_window), w[2]);
        assert_eq!(number(judge.good_window), w[3]);
        assert_eq!(number(judge.bad_window), w[4]);
        assert_eq!(number(judge.hold_window), w[5]);
        assert_eq!(number(judge.roll_window), w[6]);
        assert_eq!(number(judge.mine_window), w[7]);
        assert_eq!(number(judge.timing_scale), w[8]);
        assert!(judge.is_valid());
        assert!(w[0] <= w[1] && w[1] <= w[2] && w[2] <= w[3] && w[3] <= w[4]);
    }
}

#[test]
fn invalid_judges_are_told_apart() {
    let mut judge = j4();
    judge.good_window = bits(0.05);
    assert!(!judge.is_valid());
    let mut judge = j4();
    judge.mine_window = bits(-0.1);
    assert!(!judge.is_valid());
    let mut judge = j4();
    judge.bad_window = bits(f32::NAN);
    assert!(!judge.is_valid());
}

#[test]
fn classify_picks_the_first_window_that_holds_the_deviation() {
    let judge = j4();
    let cases: [(f32, TapJudgement); 14] = [
        (0.0, TapJudgement::Marvelous),
        (0.0225, TapJudgement::Marvelous),
        (-0.0225, TapJudgement::Marvelous),
        (0.02251, TapJudgement::Perfect),
        (-0.045, TapJudgement::Perfect),
        (0.06, TapJudgement::Great),
        (0.09, TapJudgement::Great),
        (-0.1, TapJudgement::Good),
        (0.135, TapJudgement::Good),
        (0.15, TapJudgement::Bad),
        (-0.18, TapJudgement::Bad),
        (0.18001, TapJudgement::Miss),
        (f32::INFINITY, TapJudgement::Miss),
        (f32::NAN, TapJudgement::Miss),
    ];
    for (deviation, expected) in cases {
        assert_eq!(judge.classify(bits(deviation)), expected);
        assert_eq!(hit(deviation).classify(&judge), expected);
        assert_eq!(judge.is_marv(bits(deviation)), expected == TapJudgement::Marvelous);
        assert_eq!(judge.is_perf(bits(deviation)), expected == TapJudgement::Perfect);
        assert_eq!(judge.is_great(bits(deviation)), expected == TapJudgement::Great);
        assert_eq!(judge.is_good(bits(deviation)), expected == TapJudgement::Good);
        assert_eq!(judge.is_bad(bits(deviation)), expected == TapJudgement::Bad);
        assert_eq!(judge.is_miss(bits(deviation)), expected == TapJudgement::Miss);
        assert_eq!(hit(deviation).is_marv(&judge), expected == TapJudgement::Marvelous);
        assert_eq!(hit(deviation).is_perf(&judge), expected == TapJudgement::Perfect);
        assert_eq!(hit(deviation).is_great(&judge), expected == TapJudgement::Great);
        assert_eq!(hit(deviation).is_good(&judge), expected == TapJudgement::Good);
        assert_eq!(hit(deviation).is_bad(&judge), expected == TapJudgement::Bad);
        assert_eq!(hit(deviation).is_considered_miss(&judge), expected == TapJudgement::Miss);
        assert_eq!(hit(deviation).is_miss(&judge), expected == TapJudgement::Miss);
    }
}

fn severity(judgement: TapJudgement) -> u8 {
    match judgement {
        TapJudgement::Marvelous => 0,
        TapJudgement::Perfect => 1,
        TapJudgement::Great => 2,
        TapJudgement::Good => 3,
        TapJudgement::Bad => 4,
        TapJudgement::Miss => 5,
    }
}

#[test]
fn judgement_never_improves_with_distance() {
    let judges: [Judge; 9] = [j1(), j2(), j3(), j4(), j5(), j6(), j7(), j8(), j9()];
    for judge in judges {
        let mut worst = 0;
        for step in 0..400 {
            let deviation = step as f32 * 0.001;
            let late = severity(judge.classify(bits(deviation)));
            let early = severity(judge.classify(bits(-deviation)));
            assert_eq!(late, early);
            assert!(late >= worst);
            worst = late;
        }
        assert_eq!(worst, 5);
    }
}

#[test]
fn combo_breaker_is_anything_worse_than_great() {
    let judge = j4();
    assert!(!judge.is_cb(bits(0.0)));
    assert!(!judge.is_cb(bits(0.09)));
    assert!(!judge.is_cb(bits(-0.09)));
    assert!(judge.is_cb(bits(0.0901)));
    assert!(judge.is_cb(bits(-0.2)));
    assert!(hit(0.1).is_cb(&judge));
    assert!(!hit(-0.05).is_cb(&judge));
    assert!(Hit::Miss.is_cb(&judge));
    assert!(Hit::Miss.is_cb(&j1()));
}

#[test]
fn hits_and_misses() {
    assert!(!hit(-0.02).is_considered_miss(&j4()));
    assert!(Hit::Miss.is_considered_miss(&j4()));
    assert!(!hit(0.20).is_considered_miss(&j1()));
    assert!(hit(0.20).is_considered_miss(&j4()));
    assert!(Hit::Miss.is_miss(&j1()));

    assert!(!hit(-0.02).was_missed());
    assert!(Hit::Miss.was_missed());
    assert!(!hit(0.20).was_missed());

    assert_eq!(hit(0.25).deviation().map(number), Some(0.25));
    assert_eq!(Hit::Miss.deviation(), None);
    assert_eq!(Hit::Miss.classify(&j1()), TapJudgement::Miss);
    assert!(!Hit::Miss.is_marv(&j4()));

    assert!(hit(-0.04).is_within_window(bits(0.05)));
    assert!(!hit(0.05).is_within_window(bits(0.05)));
    assert!(!Hit::Miss.is_within_window(bits(0.05)));
    assert!(!hit(0.0).is_within_window(bits(0.0)));
}

#[test]
fn judgement_colors() {
    assert_eq!(TapJudgement::Marvelous.color(), (0x99, 0xCC, 0xFF));
    assert_eq!(TapJudgement::Perfect.color(), (0xF2, 0xCB, 0x30));
    assert_eq!(TapJudgement::Great.color(), (0x14, 0xCC, 0x8F));
    assert_eq!(TapJudgement::Good.color(), (0x1A, 0xB2, 0xFF));
    assert_eq!(TapJudgement::Bad.color(), (0xFF, 0x1A, 0xB3));
    assert_eq!(TapJudgement::Miss.color(), (0xCC, 0x29, 0x29));
}

#[test]
fn wifescore_is_a_number_of_at_most_one() {
    assert!(Wifescore::from_proportion(bits(1.5)).is_none());
    assert!(Wifescore::from_proportion(bits(f32::NAN)).is_none());
    assert!(Wifescore::from_proportion(bits(-f32::NAN)).is_none());
    assert!(Wifescore::from_proportion(bits(f32::INFINITY)).is_none());
    assert!(Wifescore::from_proportion(bits(1.0000001)).is_none());
    assert!(Wifescore::of_quotient(bits(0.9), 0).is_none());
    assert!(Wifescore::of_quotient(bits(f32::NEG_INFINITY), 0).is_none());
    assert!(Wifescore::of_quotient(bits(f32::NAN), 7).is_none());
    assert!(Wifescore::of_quotient(bits(1.5), 7).is_none());
    assert_eq!(number(Wifescore::of_quotient(bits(0.9), 1).unwrap().as_proportion()), 0.9);
    assert_eq!(number(Wifescore::of_quotient(bits(-2.5), u64::MAX).unwrap().as_proportion()), -2.5);
    for proportion in [1.0f32, 0.9999999, 0.5, 0.0, -0.0, -4.0, f32::MIN, f32::NEG_INFINITY] {
        let score = Wifescore::from_proportion(bits(proportion)).unwrap();
        let back = number(score.as_proportion());
        assert_eq!(back.to_bits(), proportion.to_bits());
        assert!(back <= 1.0);
        assert!(!back.is_nan());
    }
}

#[test]
fn wifescore_grades_ascend() {
    let thresholds = [
        (Wifescore::d_threshold(), f32::NEG_INFINITY),
        (Wifescore::c_threshold(), 0.60),
        (Wifescore::b_threshold(), 0.70),
        (Wifescore::a_threshold(), 0.80),
        (Wifescore::aa_threshold(), 0.93),
        (Wifescore::aaa_threshold(), 0.997),
        (Wifescore::aaaa_threshold(), 0.99955),
        (Wifescore::aaaaa_threshold(), 0.99996),
    ];
    for (threshold, expected) in thresholds {
        assert_eq!(number(threshold.as_proportion()), expected);
    }
    for pair in thresholds.windows(2) {
        assert!(pair[0].0.lt(pair[1].0));
        assert!(pair[1].0.reaches(pair[0].0));
        assert!(!pair[0].0.reaches(pair[1].0));
    }
    let score = Wifescore::from_proportion(bits(0.95)).unwrap();
    assert!(score.reaches(Wifescore::aa_threshold()));
    assert!(!score.reaches(Wifescore::aaa_threshold()));
    let negative = Wifescore::from_proportion(bits(-0.5)).unwrap();
    assert!(negative.lt(Wifescore::default()));
    assert!(negative.reaches(Wifescore::d_threshold()));
    assert_eq!(number(Wifescore::default().as_proportion()), 0.0);
}
