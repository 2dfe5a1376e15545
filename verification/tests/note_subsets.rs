use etterna_base::binary32::is_sorted;
use etterna_base::binary32::Binary32;
use etterna_base::note_subsets::first_combo_end;
use etterna_base::note_subsets::keep_faster;
use etterna_base::note_subsets::pick_fastest;
use etterna_base::note_subsets::subset_windows;
use etterna_base::note_subsets::FastestComboInfo;
use etterna_base::note_subsets::NoteWindow;

fn bits(value: f32) -> Binary32 {
    Binary32::from_bits(value.to_bits())
}

fn number(value: Binary32) -> f32 {
    f32::from_bits(value.to_bits())
}

fn all_bits(values: &[f32]) -> Vec<Binary32> {
    values.iter().map(|&v| bits(v)).collect()
}

fn find_fastest_note_subset(seconds: &[f32], min_num_notes: u32, max_num_notes: u32) -> FastestComboInfo {
    let times = all_bits(seconds);
    assert!(is_sorted(&times));
    assert!(max_num_notes >= min_num_notes);
    let windows = subset_windows(seconds.len(), min_num_notes, max_num_notes);
    let speeds: Vec<Binary32> = windows
        .iter()
        .map(|w| bits((w.end - w.start) as f32 / (seconds[w.end] - seconds[w.start])))
        .collect();
    pick_fastest(&times, &windows, &speeds)
}

fn find_fastest_note_subset_wife_pts(
    seconds: &[f32],
    min_num_notes: u32,
    max_num_notes: u32,
    wife_pts: &[f32],
) -> FastestComboInfo {
    assert!(wife_pts.len() == seconds.len());
    let times = all_bits(seconds);
    assert!(is_sorted(&times));
    assert!(max_num_notes >= min_num_notes);
    let windows = subset_windows(seconds.len(), min_num_notes, max_num_notes);
    let speeds: Vec<Binary32> = windows
        .iter()
        .map(|w| {
            let n = w.end - w.start;
            let mut nps = n as f32 / (seconds[w.end] - seconds[w.start]);
            let wife_pts_sum: f32 = wife_pts[w.start..w.end].iter().sum();
            nps *= wife_pts_sum / n as f32;
            bits(nps)
        })
        .collect();
    pick_fastest(&times, &windows, &speeds)
}

fn check_both(seconds: &[f32], min_num_notes: u32, max_num_notes: u32, expected_length: u32, expected_speed: f32) {
    let fastest_subset = find_fastest_note_subset(seconds, min_num_notes, max_num_notes);
    let fastest_wife_pts_subset =
        find_fastest_note_subset_wife_pts(seconds, min_num_notes, max_num_notes, &vec![1.0; seconds.len()]);

    assert!((number(fastest_subset.start_second) - number(fastest_wife_pts_subset.start_second)).abs() < 0.00001);
    assert!((number(fastest_subset.end_second) - number(fastest_wife_pts_subset.end_second)).abs() < 0.00001);
    assert_eq!(fastest_subset.length, fastest_wife_pts_subset.length);
    assert!((number(fastest_subset.speed) - number(fastest_wife_pts_subset.speed)).abs() < 0.00001);

    assert_eq!(fastest_subset.length, expected_length);
    assert!((number(fastest_subset.speed) - expected_speed).abs() < 0.00001);
}

#[test]
fn test_find_fastest_note_subset() {
    let seconds: &[f32] = &[0.0, 3.0, 5.0, 6.0, 8.0];
    check_both(seconds, 2, 99, 2, 0.6666666);
    check_both(seconds, 3, 99, 3, 0.6);

    let seconds: &[f32] = &[0.0, 0.0, 1.0, 2.0, 3.0, 4.0, 4.0];
    check_both(seconds, 5, 6, 6, 1.5);
    check_both(seconds, 5, 5, 5, 1.25);
}

#[test]
fn fastest_subset_names_its_window() {
    let seconds: &[f32] = &[0.0, 3.0, 5.0, 6.0, 8.0];
    // The windows from 3 to 6 and from 5 to 8 are equally fast and equally long; the first wins.
    let fastest = find_fastest_note_subset(seconds, 2, 99);
    assert_eq!(number(fastest.start_second), 3.0);
    assert_eq!(number(fastest.end_second), 6.0);
    let fastest = find_fastest_note_subset(seconds, 3, 99);
    assert_eq!(number(fastest.start_second), 3.0);
    assert_eq!(number(fastest.end_second), 8.0);
}

#[test]
fn short_lanes_have_no_subset() {
    let nothing = FastestComboInfo::default();
    assert_eq!(nothing.length, 0);
    assert_eq!(nothing.speed.to_bits(), 0);
    assert_eq!(find_fastest_note_subset(&[], 2, 99), nothing);
    assert_eq!(find_fastest_note_subset(&[1.0, 2.0], 2, 99), nothing);
    assert!(subset_windows(2, 2, 99).is_empty());
    assert!(subset_windows(0, 0, 0).is_empty());
}

#[test]
fn windows_come_shortest_first() {
    let w = |start: usize, end: usize| NoteWindow { start, end };
    assert_eq!(subset_windows(4, 2, 99), vec![w(0, 2), w(1, 3), w(0, 3)]);
    assert_eq!(subset_windows(4, 1, 2), vec![w(0, 1), w(1, 2), w(2, 3), w(0, 2), w(1, 3)]);
    assert_eq!(subset_windows(3, 2, 2), vec![w(0, 2)]);
}

#[test]
fn ties_go_to_the_longer_window_and_then_to_the_first() {
    let seconds = all_bits(&[0.0, 1.0, 2.0, 3.0]);
    let windows = vec![
        NoteWindow { start: 0, end: 1 },
        NoteWindow { start: 1, end: 2 },
        NoteWindow { start: 2, end: 3 },
    ];
    // Of windows of one speed and one length the first wins.
    let picked = pick_fastest(&seconds, &windows, &all_bits(&[1.0, 1.0, f32::NAN]));
    assert_eq!(number(picked.start_second), 0.0);
    assert_eq!(number(picked.end_second), 1.0);
    assert_eq!(picked.length, 1);
    // A window that is faster wins, wherever it stands.
    let picked = pick_fastest(&seconds, &windows, &all_bits(&[1.0, 1.5, 1.5]));
    assert_eq!(number(picked.start_second), 1.0);
    // Of windows of one speed the longer wins, whichever comes first.
    let windows = vec![
        NoteWindow { start: 0, end: 1 },
        NoteWindow { start: 1, end: 3 },
        NoteWindow { start: 2, end: 3 },
    ];
    let picked = pick_fastest(&seconds, &windows, &all_bits(&[1.0, 1.0, 1.0]));
    assert_eq!(picked.length, 2);
    assert_eq!(number(picked.start_second), 1.0);
    let windows = vec![
        NoteWindow { start: 0, end: 3 },
        NoteWindow { start: 1, end: 3 },
        NoteWindow { start: 2, end: 3 },
    ];
    let picked = pick_fastest(&seconds, &windows, &all_bits(&[1.0, 1.0, 1.0]));
    assert_eq!(picked.length, 3);
    assert_eq!(number(picked.start_second), 0.0);
}

#[test]
fn a_window_without_a_speed_never_wins() {
    let seconds = all_bits(&[0.0, 1.0, 2.0, 3.0]);
    let windows = vec![
        NoteWindow { start: 0, end: 1 },
        NoteWindow { start: 1, end: 2 },
        NoteWindow { start: 2, end: 3 },
    ];
    let picked = pick_fastest(&seconds, &windows, &all_bits(&[-1.0, f32::NAN, -0.5]));
    assert_eq!(picked, FastestComboInfo::default());
    let picked = pick_fastest(&seconds, &windows, &all_bits(&[0.0, -1.0, -2.0]));
    assert_eq!(number(picked.end_second), 1.0);
    assert_eq!(picked.length, 1);
}

#[test]
fn first_combo_ends_at_first_combo_breaker() {
    assert_eq!(first_combo_end(&vec![false, false, true, false, true]), 2);
    assert_eq!(first_combo_end(&vec![false, false]), 2);
    assert_eq!(first_combo_end(&vec![true]), 0);
    assert_eq!(first_combo_end(&vec![]), 0);
}

#[test]
fn keep_faster_needs_a_strictly_higher_speed() {
    let combo = |speed: f32, length: u32| FastestComboInfo {
        start_second: bits(0.0),
        end_second: bits(1.0),
        length,
        speed: bits(speed),
    };
    assert_eq!(keep_faster(combo(1.0, 1), combo(2.0, 2)).length, 2);
    assert_eq!(keep_faster(combo(2.0, 1), combo(2.0, 2)).length, 1);
    assert_eq!(keep_faster(combo(2.0, 1), combo(f32::NAN, 2)).length, 1);
    assert_eq!(keep_faster(FastestComboInfo::default(), combo(0.0, 2)).length, 0);
}
