use etterna_base::binary32::Binary32;
use etterna_base::skillsets::reads;
use etterna_base::skillsets::ChartSkillsets;
use etterna_base::skillsets::UserSkillsets;
use etterna_base::skillsets::Skillset7;
use etterna_base::skillsets::Skillset8;
use etterna_base::skillsets::Skillsets7;
use etterna_base::skillsets::Skillsets8;
use etterna_base::timeline::rated_columns;
use etterna_base::timeline::snapshots;
use etterna_base::timeline::SkillTimeline;
use etterna_base::timeline::Snapshot;

fn bits(value: f32) -> Binary32 {
    Binary32::from_bits(value.to_bits())
}

fn number(value: Binary32) -> f32 {
    f32::from_bits(value.to_bits())
}

fn skillsets(values: [f32; 7]) -> Skillsets7 {
    Skillsets7 {
        stream: bits(values[0]),
        jumpstream: bits(values[1]),
        handstream: bits(values[2]),
        stamina: bits(values[3]),
        jackspeed: bits(values[4]),
        chordjack: bits(values[5]),
        technical: bits(values[6]),
    }
}

#[test]
fn user_input_names_skillsets() {
    assert_eq!(Skillset8::from_user_input("js"), Some(Skillset8::Jumpstream));
    assert_eq!(Skillset8::from_user_input("Jacks"), Some(Skillset8::Jackspeed));
    assert_eq!(Skillset8::from_user_input("JACKSPEED"), Some(Skillset8::Jackspeed));
    assert_eq!(Skillset8::from_user_input("handstreams"), None);
    assert_eq!(Skillset8::from_user_input("Overall"), Some(Skillset8::Overall));
    assert_eq!(Skillset8::from_user_input("STREAM"), Some(Skillset8::Stream));
    assert_eq!(Skillset8::from_user_input("hs"), Some(Skillset8::Handstream));
    assert_eq!(Skillset8::from_user_input("Handstream"), Some(Skillset8::Handstream));
    assert_eq!(Skillset8::from_user_input("stam"), Some(Skillset8::Stamina));
    assert_eq!(Skillset8::from_user_input("Stamina"), Some(Skillset8::Stamina));
    assert_eq!(Skillset8::from_user_input("jack"), Some(Skillset8::Jackspeed));
    assert_eq!(Skillset8::from_user_input("CJ"), Some(Skillset8::Chordjack));
    assert_eq!(Skillset8::from_user_input("chordjack"), Some(Skillset8::Chordjack));
    assert_eq!(Skillset8::from_user_input("ChordJacks"), Some(Skillset8::Chordjack));
    assert_eq!(Skillset8::from_user_input("tech"), Some(Skillset8::Technical));
    assert_eq!(Skillset8::from_user_input("Technical"), Some(Skillset8::Technical));
    assert_eq!(Skillset8::from_user_input("jumpstream"), Some(Skillset8::Jumpstream));
    assert_eq!(Skillset8::from_user_input(""), None);
    assert_eq!(Skillset8::from_user_input(" js"), None);
    // The Kelvin sign is a capital letter whose lowercase is the letter k.
    assert_eq!(Skillset8::from_user_input("jac\u{212A}"), Some(Skillset8::Jackspeed));

    assert_eq!(Skillset8::from_lowercase_name("js"), Some(Skillset8::Jumpstream));
    assert_eq!(Skillset8::from_lowercase_name("JS"), None);

    assert_eq!(Skillset7::from_user_input("TECH"), Some(Skillset7::Technical));
    assert_eq!(Skillset7::from_user_input("overall"), None);
    assert_eq!(Skillset7::from_user_input("nothing"), None);

    assert!(reads("abc", "abc"));
    assert!(!reads("abc", "abd"));
    assert!(!reads("abc", "ab"));
}

#[test]
fn skillsets_convert_between_seven_and_eight() {
    assert_eq!(Skillset7::Stream.into_skillset8(), Skillset8::Stream);
    assert_eq!(Skillset7::Chordjack.into_skillset8(), Skillset8::Chordjack);
    assert_eq!(Skillset8::Stream.into_skillset7(), Some(Skillset7::Stream));
    assert_eq!(Skillset8::Overall.into_skillset7(), None);
    for ss in Skillset7::iter() {
        assert_eq!(ss.into_skillset8().into_skillset7(), Some(ss));
        assert_eq!(ss.name(), ss.into_skillset8().name());
    }
    assert_eq!(Skillset7::list().to_vec(), Skillset7::iter());
    assert_eq!(Skillset8::list().to_vec(), Skillset8::iter());
    assert_eq!(Skillset7::list().len(), 7);
    assert_eq!(Skillset8::list()[0], Skillset8::Overall);
    assert_eq!(Skillset8::list()[7], Skillset8::Technical);
    assert_eq!(Skillset7::list()[0], Skillset7::Stream);
    assert_eq!(Skillset8::Jackspeed.name(), "Jackspeed");
    assert_eq!(Skillset8::Overall.name(), "Overall");
    assert_eq!(Skillset7::Stamina.name(), "Stamina");
}

#[test]
fn skillset_values_are_found_by_name() {
    let seven = skillsets([22.31, 22.37, 18.99, 21.53, 14.12, 15.85, 21.47]);
    assert_eq!(number(seven.get(Skillset7::Stream)), 22.31);
    assert_eq!(number(seven.get(Skillset7::Jumpstream)), 22.37);
    assert_eq!(number(seven.get(Skillset7::Handstream)), 18.99);
    assert_eq!(number(seven.get(Skillset7::Stamina)), 21.53);
    assert_eq!(number(seven.get(Skillset7::Jackspeed)), 14.12);
    assert_eq!(number(seven.get(Skillset7::Chordjack)), 15.85);
    assert_eq!(number(seven.get(Skillset7::Technical)), 21.47);
    let values: Vec<f32> = seven.to_array().iter().map(|&v| number(v)).collect();
    assert_eq!(values, vec![22.31, 22.37, 18.99, 21.53, 14.12, 15.85, 21.47]);

    let eight: Skillsets8 = seven.with_overall(bits(23.0));
    assert_eq!(number(eight.get(Skillset8::Overall)), 23.0);
    for ss in Skillset7::iter() {
        assert_eq!(eight.get(ss.into_skillset8()), seven.get(ss));
    }
    assert_eq!(eight.to_skillsets7(), seven);
    assert_eq!(seven.calc_player_overall(bits(20.5)), seven.with_overall(bits(20.5)));
}

#[test]
fn overall_of_a_score_is_never_below_its_best_skillset() {
    let seven = skillsets([22.31, 22.37, 18.99, 21.53, 14.12, 15.85, 21.47]);
    assert_eq!(number(seven.largest()), 22.37);
    assert_eq!(number(seven.calc_ssr_overall_pre_070().overall), 22.37);
    assert_eq!(number(seven.calc_ssr_overall(bits(22.99)).overall), 22.99);
    assert_eq!(number(seven.calc_ssr_overall(bits(20.0)).overall), 22.37);
    assert_eq!(number(seven.calc_ssr_overall(bits(f32::NAN)).overall), 22.37);
    let with_gap = skillsets([1.0, f32::NAN, 3.0, 2.0, -1.0, 0.0, 2.5]);
    assert_eq!(number(with_gap.largest()), 3.0);
    let last = skillsets([1.0, 1.5, 3.0, 2.0, -1.0, 0.0, 7.5]);
    assert_eq!(number(last.largest()), 7.5);
}

#[test]
fn timeline_takes_a_snapshot_for_each_group() {
    let keys = vec!["day1", "day1", "day1", "day2", "day2"];
    let taken = snapshots(&keys);
    assert_eq!(taken.len(), 2);
    assert_eq!(taken[0], Snapshot { key_index: 2, num_scores: 3 });
    assert_eq!(taken[1], Snapshot { key_index: 4, num_scores: 5 });
    assert_eq!(keys[taken[0].key_index], "day1");
    assert_eq!(keys[taken[1].key_index], "day2");

    assert!(snapshots::<u32>(&vec![]).is_empty());
    assert_eq!(snapshots(&vec![7u32]), vec![Snapshot { key_index: 0, num_scores: 1 }]);
    assert_eq!(
        snapshots(&vec![1u32, 2, 2, 1]),
        vec![
            Snapshot { key_index: 0, num_scores: 1 },
            Snapshot { key_index: 2, num_scores: 3 },
            Snapshot { key_index: 3, num_scores: 4 },
        ]
    );
}

fn is_rating_okay(rating: f32, ssrs: &[f32], delta_multiplier: f32) -> bool {
    let max_power_sum: f64 = 2f64.powf(rating as f64 * 0.1);
    let power_sum: f64 = ssrs
        .iter()
        .map(|&ssr| (2.0 / libm::erfcf(delta_multiplier * (ssr - rating)) - 2.0) as f64)
        .filter(|&x| x > 0.0)
        .sum();
    power_sum < max_power_sum
}

fn calc_rating(ssrs: &[f32], formula: etterna_base::rating_calc::RatingFormula) -> f32 {
    let mut search = etterna_base::rating_calc::RatingSearch::new();
    let mut rating = 0.0f32;
    let mut resolution = 10.24f32;
    while !search.is_finished() {
        let okay = is_rating_okay(rating + resolution, ssrs, number(formula.delta_multiplier()));
        match search.observe(okay) {
            etterna_base::rating_calc::SearchStep::Climb => rating += resolution,
            etterna_base::rating_calc::SearchStep::Refine => resolution /= 2.0,
            etterna_base::rating_calc::SearchStep::Finish => {
                resolution /= 2.0;
                rating += resolution * 2.0;
            }
        }
    }
    rating * number(formula.final_multiplier())
}

fn rate(scores: &[Skillsets7], num_scores: usize) -> Skillsets8 {
    let columns = rated_columns(&scores.to_vec(), num_scores);
    let ratings: Vec<f32> = columns
        .iter()
        .map(|column| {
            let values: Vec<f32> = column.iter().map(|&v| number(v)).collect();
            calc_rating(&values, etterna_base::rating_calc::RatingFormula::PlayerSkillset)
        })
        .collect();
    let seven =
        skillsets([ratings[0], ratings[1], ratings[2], ratings[3], ratings[4], ratings[5], ratings[6]]);
    let overall = calc_rating(&ratings, etterna_base::rating_calc::RatingFormula::PlayerOverall);
    seven.calc_player_overall(bits(overall))
}

#[test]
fn timeline_rates_all_scores_seen_so_far() {
    let scores = vec![
        skillsets([21.0, 24.0, 23.0, 14.0, 17.0, 25.0, 24.0]),
        skillsets([25.0, 23.0, 30.0, 30.0, 17.0, 25.0, 24.0]),
        skillsets([26.0, 23.0, 29.0, 15.0, 19.0, 22.0, 25.0]),
        skillsets([23.0, 24.0, 24.0, 23.0, 25.0, 24.0, 23.0]),
        skillsets([10.0, 100.0, 42.0, 69.0, 3.0, 88.0, 50.0]),
    ];
    let keys = vec!["day1", "day1", "day1", "day2", "day2"];
    let timeline = SkillTimeline {
        changes: snapshots(&keys)
            .iter()
            .map(|snapshot| (keys[snapshot.key_index], rate(&scores, snapshot.num_scores)))
            .collect(),
    };
    assert_eq!(timeline.changes.len(), 2);
    assert_eq!(timeline.changes[0].0, "day1");
    assert_eq!(timeline.changes[1].0, "day2");
    // The first entry rates the three scores of its group and none of the next.
    assert_eq!(timeline.changes[0].1, rate(&scores, 3));
    assert!(timeline.changes[0].1 != rate(&scores, 4));
    // The second entry rates all five scores, not only the two of its group.
    assert_eq!(timeline.changes[1].1, rate(&scores, 5));
    assert!(timeline.changes[1].1 != rate(&scores[3..], 2));

    let columns = rated_columns(&scores, 5);
    assert_eq!(columns.len(), 7);
    let jumpstream: Vec<f32> = columns[1].iter().map(|&v| number(v)).collect();
    assert_eq!(jumpstream, vec![24.0, 23.0, 23.0, 24.0, 100.0]);
    let stream: Vec<f32> = rated_columns(&scores, 2)[0].iter().map(|&v| number(v)).collect();
    assert_eq!(stream, vec![21.0, 25.0]);
}

#[test]
fn records_are_generated_from_a_value_for_each_skillset() {
    let seven = Skillsets7::generate(|ss| bits(ss as u8 as f32));
    let values: Vec<f32> = seven.to_array().iter().map(|&v| number(v)).collect();
    assert_eq!(values, vec![0.0, 1.0, 2.0, 3.0, 4.0, 5.0, 6.0]);
    let eight = Skillsets8::generate(|ss| bits(10.0 + ss as u8 as f32));
    assert_eq!(number(eight.overall), 10.0);
    assert_eq!(number(eight.stream), 11.0);
    assert_eq!(number(eight.technical), 17.0);
    assert_eq!(Skillsets7::from(eight), eight.to_skillsets7());
    assert_eq!(Skillset8::from(Skillset7::Stamina), Skillset8::Stamina);
}

#[test]
fn records_are_made_from_seven_values() {
    let values = [1.5f32, 2.5, 3.5, 4.5, 5.5, 6.5, 7.5];
    let record = Skillsets7::from_array([
        bits(values[0]),
        bits(values[1]),
        bits(values[2]),
        bits(values[3]),
        bits(values[4]),
        bits(values[5]),
        bits(values[6]),
    ]);
    assert_eq!(record, skillsets(values));
    assert_eq!(etterna_base::Skillsets7::from_array(record.to_array()), record);
}

#[test]
fn chart_and_user_skillsets() {
    let msd = ChartSkillsets {
        stream: bits(22.31),
        jumpstream: bits(22.37),
        handstream: bits(18.99),
        stamina: bits(21.53),
        jackspeed: bits(14.12),
        chordjack: bits(15.85),
        technical: bits(21.47),
    };
    assert_eq!(msd.skillsets(), skillsets([22.31, 22.37, 18.99, 21.53, 14.12, 15.85, 21.47]));
    assert_eq!(number(msd.overall_pre_070()), 22.37);
    assert_eq!(number(msd.overall(bits(22.99))), 22.99);
    assert_eq!(number(msd.overall(bits(20.0))), 22.37);
    assert_eq!(number(msd.get(Skillset8::Overall, bits(22.99))), 22.99);
    assert_eq!(number(msd.get(Skillset8::Overall, bits(1.0))), 22.37);
    assert_eq!(number(msd.get(Skillset8::Stamina, bits(22.99))), 21.53);
    assert_eq!(number(msd.get_pre_070(Skillset8::Overall)), 22.37);
    assert_eq!(number(msd.get_pre_070(Skillset8::Technical)), 21.47);
    let aggregated = calc_rating(
        &[22.31, 22.37, 18.99, 21.53, 14.12, 15.85, 21.47],
        etterna_base::rating_calc::RatingFormula::ScoreOverall,
    );
    assert!((number(msd.overall(bits(aggregated))) - 22.99).abs() < 0.01);

    let player = UserSkillsets {
        stream: bits(28.3815),
        jumpstream: bits(29.0849),
        handstream: bits(29.3894),
        stamina: bits(28.8329),
        jackspeed: bits(22.2704),
        chordjack: bits(27.2160),
        technical: bits(27.8669),
    };
    assert_eq!(number(player.skillsets().handstream), 29.3894);
    assert_eq!(number(player.get(Skillset8::Jackspeed, bits(28.0))), 22.2704);
    assert_eq!(number(player.get(Skillset8::Overall, bits(28.0))), 28.0);
    let overall = calc_rating(
        &[28.3815, 29.0849, 29.3894, 28.8329, 22.2704, 27.2160, 27.8669],
        etterna_base::rating_calc::RatingFormula::PlayerOverall,
    );
    assert!((number(player.get(Skillset8::Overall, bits(overall))) - 28.7212).abs() < 0.01);
}
