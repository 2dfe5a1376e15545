use etterna_base::pattern::char_to_lane;
use etterna_base::pattern::first_char_width;
use etterna_base::pattern::CharToLane;
use etterna_base::pattern::Pattern;

#[test]
fn test_char_to_lane() {
    assert_eq!(char_to_lane(b'5'), CharToLane::Lane(4));
    assert_eq!(char_to_lane(b'l'), CharToLane::Lane(0));
    assert_eq!(char_to_lane(b'L'), CharToLane::Lane(0));
    assert_eq!(char_to_lane(b'c'), CharToLane::Invalid);
    assert_eq!(char_to_lane(b'0'), CharToLane::Space);
}

#[test]
fn test_first_char_width() {
    assert_eq!(first_char_width("a"), 1);
    assert_eq!(first_char_width("ä"), 2);
    assert_eq!(first_char_width("🔎"), 4);
}

#[test]
fn char_to_lane_covers_digits_and_letters() {
    assert_eq!(char_to_lane(b'1'), CharToLane::Lane(0));
    assert_eq!(char_to_lane(b'9'), CharToLane::Lane(8));
    assert_eq!(char_to_lane(b'd'), CharToLane::Lane(1));
    assert_eq!(char_to_lane(b'U'), CharToLane::Lane(2));
    assert_eq!(char_to_lane(b'r'), CharToLane::Lane(3));
    assert_eq!(char_to_lane(b'['), CharToLane::Invalid);
    assert_eq!(char_to_lane(0xC3), CharToLane::Invalid);
    assert_eq!(CharToLane::Lane(7).as_some(), Some(7));
    assert_eq!(CharToLane::Space.as_some(), None);
    assert_eq!(CharToLane::Invalid.as_some(), None);
}

#[test]
fn parse_taps_reads_brackets_and_gaps() {
    let expected: Vec<Vec<u32>> = vec![vec![0, 1, 2, 3], vec![], vec![3]];
    assert_eq!(Pattern::parse_taps("[1234]04").rows, expected);
    let trill: Vec<Vec<u32>> = vec![vec![0, 1], vec![2, 3], vec![0, 1], vec![2, 3]];
    assert_eq!(Pattern::parse_taps("[12][34][12][34]").rows, trill);
    let gap: Vec<Vec<u32>> = vec![vec![]];
    assert_eq!(Pattern::parse_taps("[]").rows, gap);
}

#[test]
fn parse_taps_skips_what_stands_for_nothing() {
    let expected: Vec<Vec<u32>> = vec![vec![0], vec![1]];
    assert_eq!(Pattern::parse_taps("1ä🔎x2").rows, expected);
    let unclosed: Vec<Vec<u32>> = vec![vec![0], vec![1]];
    assert_eq!(Pattern::parse_taps("[12").rows, unclosed);
    let letters: Vec<Vec<u32>> = vec![vec![0, 3], vec![2]];
    assert_eq!(Pattern::parse_taps("[Lär]u").rows, letters);
    assert!(Pattern::parse_taps("").rows.is_empty());
}

#[test]
fn keymode_is_rightmost_lane_plus_one_and_at_least_four() {
    assert_eq!(Pattern::parse_taps("1234").keymode(), Some(4));
    assert_eq!(Pattern::parse_taps("123").keymode(), Some(4));
    assert_eq!(Pattern::parse_taps("9").keymode(), Some(9));
    assert_eq!(Pattern::parse_taps("").keymode(), None);
    assert_eq!(Pattern::parse_taps("0[]0").keymode(), None);
    assert_eq!(Pattern::parse_taps("[15]2").keymode(), Some(5));
}
