use etterna_base::binary64::Binary64;
use etterna_base::timing_info::scan_bpm_pairs;
use etterna_base::timing_info::trim_bstr;
use etterna_base::timing_info::BpmChange;
use etterna_base::timing_info::BpmTokens;
use etterna_base::timing_info::SmBpmStringParseError;
use etterna_base::timing_info::TimingInfo;
use etterna_base::util::ByteRange;

fn bits(value: f64) -> Binary64 {
    Binary64::from_bits(value.to_bits())
}

fn number(value: Binary64) -> f64 {
    f64::from_bits(value.to_bits())
}

fn read(bytes: &[u8], range: ByteRange) -> Option<Binary64> {
    lexical_core::parse_lossy::<f64>(&bytes[range.start..range.end]).ok().map(bits)
}

fn from_sm_bpm_string(string: &[u8]) -> Result<TimingInfo, SmBpmStringParseError> {
    let tokens = scan_bpm_pairs(string);
    let beats: Vec<Option<Binary64>> = tokens.iter().map(|t| t.and_then(|t| read(string, t.beat))).collect();
    let bpms: Vec<Option<Binary64>> = tokens.iter().map(|t| t.and_then(|t| read(string, t.bpm))).collect();
    TimingInfo::assemble(&tokens, &beats, &bpms)
}

fn ticks_to_seconds(timing: &TimingInfo, ticks: &[u32]) -> Vec<f32> {
    assert!(ticks.windows(2).all(|w| w[0] <= w[1]));
    let tick_beats: Vec<f64> = ticks.iter().map(|&tick| tick as f64 / 48.0).collect();
    let segments = timing.segments(&tick_beats.iter().map(|&beat| bits(beat)).collect());

    // Where each tempo starts, and how long a beat lasts in it.
    let mut cursor_beat = vec![0.0];
    let mut cursor_second = vec![0.0];
    let mut beat_time = vec![60.0 / number(timing.first_bpm())];
    for k in 0..timing.num_changes() {
        let change = timing.change(k);
        cursor_second.push(cursor_second[k] + beat_time[k] * (number(change.beat) - cursor_beat[k]));
        cursor_beat.push(number(change.beat));
        beat_time.push(60.0 / number(change.bpm));
    }

    tick_beats
        .iter()
        .zip(segments)
        .map(|(&beat, s)| (cursor_second[s] + (beat - cursor_beat[s]) * beat_time[s]) as f32)
        .collect()
}

#[test]
fn whitespace_is_trimmed_off_both_ends() {
    let text = b" \t12.5\r\n ";
    assert_eq!(trim_bstr(text, 0, text.len()), ByteRange { start: 2, end: 6 });
    assert_eq!(trim_bstr(b"abc", 0, 3), ByteRange { start: 0, end: 3 });
    assert_eq!(trim_bstr(b"a b", 0, 3), ByteRange { start: 0, end: 3 });
    assert_eq!(trim_bstr(b"   ", 0, 3), ByteRange { start: 3, end: 3 });
    assert_eq!(trim_bstr(b"xx y zz", 2, 5), ByteRange { start: 3, end: 4 });
    assert_eq!(trim_bstr(b"", 0, 0), ByteRange { start: 0, end: 0 });
}

#[test]
fn pairs_are_found_between_commas() {
    let range = |start: usize, end: usize| ByteRange { start, end };
    assert_eq!(
        scan_bpm_pairs(b"0=120, 4 = 240,nothing,=,8=60=1"),
        vec![
            Some(BpmTokens { beat: range(0, 1), bpm: range(2, 5) }),
            Some(BpmTokens { beat: range(7, 8), bpm: range(11, 14) }),
            None,
            Some(BpmTokens { beat: range(23, 23), bpm: range(24, 24) }),
            Some(BpmTokens { beat: range(25, 26), bpm: range(27, 31) }),
        ]
    );
    assert_eq!(scan_bpm_pairs(b""), vec![None]);
}

#[test]
fn changes_are_sorted_and_the_first_gives_the_first_tempo() {
    let timing = from_sm_bpm_string(b"8=60, 0.000=120,4.000 = 240").unwrap();
    assert_eq!(number(timing.first_bpm()), 120.0);
    assert_eq!(timing.num_changes(), 2);
    assert_eq!(timing.change(0), BpmChange { beat: bits(4.0), bpm: bits(240.0) });
    assert_eq!(timing.change(1), BpmChange { beat: bits(8.0), bpm: bits(60.0) });

    let timing = from_sm_bpm_string(b"0=150").unwrap();
    assert_eq!(number(timing.first_bpm()), 150.0);
    assert_eq!(timing.num_changes(), 0);

    // Changes at one beat keep the order of the text.
    let timing = from_sm_bpm_string(b"2=1,-0=100,2=2,1=7,2=3").unwrap();
    assert_eq!(number(timing.first_bpm()), 100.0);
    let bpms: Vec<f64> = (0..timing.num_changes()).map(|k| number(timing.change(k).bpm)).collect();
    assert_eq!(bpms, vec![7.0, 1.0, 2.0, 3.0]);
}

#[test]
fn faulty_timing_texts_are_refused() {
    assert_eq!(from_sm_bpm_string(b"").unwrap_err(), SmBpmStringParseError::MissingEquals);
    assert_eq!(from_sm_bpm_string(b"0=120,4").unwrap_err(), SmBpmStringParseError::MissingEquals);
    assert_eq!(from_sm_bpm_string(b"0=120,x=4").unwrap_err(), SmBpmStringParseError::InvalidBeatString);
    assert_eq!(from_sm_bpm_string(b"0=120,4=").unwrap_err(), SmBpmStringParseError::InvalidBpmString);
    assert_eq!(from_sm_bpm_string(b"0=120,NaN=4").unwrap_err(), SmBpmStringParseError::EncounteredNan);
    assert_eq!(from_sm_bpm_string(b"0=NaN").unwrap_err(), SmBpmStringParseError::EncounteredNan);
    assert_eq!(
        from_sm_bpm_string(b"1=120,2.5=4").unwrap_err(),
        SmBpmStringParseError::FirstBpmChangeNotZero { beat_instead: bits(1.0) }
    );
    assert_eq!(
        from_sm_bpm_string(b"1=120,-2=4").unwrap_err(),
        SmBpmStringParseError::FirstBpmChangeNotZero { beat_instead: bits(-2.0) }
    );
    // The first fault in the text is the one that is told.
    assert_eq!(from_sm_bpm_string(b"x=1,4").unwrap_err(), SmBpmStringParseError::InvalidBeatString);
}

#[test]
fn ticks_become_seconds_by_the_tempo_that_holds() {
    let timing = from_sm_bpm_string(b"0=120,4=240,8=60").unwrap();
    let ticks = [0, 96, 192, 288, 480];
    let beats: Vec<Binary64> = ticks.iter().map(|&t| bits(t as f64 / 48.0)).collect();
    assert_eq!(timing.segments(&beats), vec![0, 0, 1, 1, 2]);
    assert_eq!(ticks_to_seconds(&timing, &ticks), vec![0.0, 1.0, 2.0, 2.5, 5.0]);
    assert_eq!(timing.segments(&vec![]), Vec::<usize>::new());

    let steady = from_sm_bpm_string(b"0=60").unwrap();
    assert_eq!(ticks_to_seconds(&steady, &[24, 48, 480]), vec![0.5, 1.0, 10.0]);
}

#[test]
fn double_precision_comparisons_agree_with_the_machine() {
    let samples = [0.0f64, -0.0, 1.5, -1.5, 5e-324, f64::MAX, f64::MIN, f64::INFINITY, f64::NEG_INFINITY, f64::NAN];
    for &a in &samples {
        assert_eq!(bits(a).is_nan(), a.is_nan());
        assert_eq!(bits(a).is_zero(), a == 0.0);
        for &b in &samples {
            assert_eq!(bits(a).lt(bits(b)), a < b);
            assert_eq!(bits(a).same_number(bits(b)), a == b);
        }
    }
    assert_eq!(number(Binary64::infinity()), f64::INFINITY);
}
