use framix::progress::{decode_stream, ProgressInfo, StreamState};

fn show(events: &[ProgressInfo]) -> Vec<String> {
    let mut lines = Vec::new();
    for event in events {
        match event {
            ProgressInfo::Log(text) => lines.push(format!("log:{}", text)),
            ProgressInfo::Percentage(fraction) => {
                lines.push(format!("pct:{}/{}", fraction.numerator(), fraction.denominator()))
            }
        }
    }
    lines
}

fn percentages(events: &[ProgressInfo]) -> Vec<f64> {
    let mut values = Vec::new();
    for event in events {
        if let ProgressInfo::Percentage(fraction) = event {
            values.push(fraction.numerator() as f64 / fraction.denominator() as f64);
        }
    }
    values
}

fn strings(items: &[&str]) -> Vec<String> {
    items.iter().map(|s| s.to_string()).collect()
}

#[test]
fn half_way_through() {
    let events = decode_stream(b"Duration: 00:01:30.00\ntime=00:00:45.00\n");
    assert_eq!(
        show(&events),
        strings(&["log:Duration: 00:01:30.00", "log:time=00:00:45.00", "pct:45000000/90000000"])
    );
    assert_eq!(percentages(&events), vec![0.5]);
}

#[test]
fn position_before_duration_gives_no_fraction() {
    let events = decode_stream(b"time=00:00:45.00\nDuration: 00:01:30.00\n");
    assert_eq!(show(&events), strings(&["log:time=00:00:45.00", "log:Duration: 00:01:30.00"]));
}

#[test]
fn position_without_any_duration_gives_no_fraction() {
    let events = decode_stream(b"time=00:00:01.00\rtime=00:00:02.00\r");
    assert_eq!(percentages(&events), Vec::<f64>::new());
    assert_eq!(events.len(), 2);
}

#[test]
fn first_duration_wins() {
    let events =
        decode_stream(b"Duration: 00:00:10.00\nDuration: 00:00:20.00\ntime=00:00:05.00\n");
    assert_eq!(
        show(&events),
        strings(&[
            "log:Duration: 00:00:10.00",
            "log:Duration: 00:00:20.00",
            "log:time=00:00:05.00",
            "pct:5000000/10000000",
        ])
    );
}

#[test]
fn frame_lines_are_not_logged() {
    assert_eq!(show(&decode_stream(b"frame=12 fps=30\n")), Vec::<String>::new());
}

#[test]
fn frame_lines_still_give_fractions() {
    let events = decode_stream(b"Duration: 00:00:10.00\nframe=  7 fps=30 time=00:00:02.50 x\r");
    assert_eq!(show(&events), strings(&["log:Duration: 00:00:10.00", "pct:2500000/10000000"]));
}

#[test]
fn frame_must_stand_at_the_start() {
    let events = decode_stream(b" frame=12\nframe\n");
    assert_eq!(show(&events), strings(&["log: frame=12", "log:frame"]));
}

#[test]
fn fraction_is_cut_off_at_one() {
    let events = decode_stream(b"Duration: 00:00:10.00\ntime=00:00:15.00\n");
    assert_eq!(percentages(&events), vec![1.0]);
    assert_eq!(show(&events)[2], "pct:10000000/10000000");
    match &events[2] {
        ProgressInfo::Percentage(fraction) => assert!(fraction.is_complete()),
        _ => panic!("a fraction was expected"),
    }
}

#[test]
fn carriage_return_ends_a_line_and_blank_lines_are_skipped() {
    let events = decode_stream(b"one\r\ntwo\r\r\n\nthree\n");
    assert_eq!(show(&events), strings(&["log:one", "log:two", "log:three"]));
}

#[test]
fn unterminated_tail_is_dropped() {
    let events = decode_stream(b"one\ntwo");
    assert_eq!(show(&events), strings(&["log:one"]));
    assert_eq!(show(&decode_stream(b"")), Vec::<String>::new());
}

#[test]
fn duration_and_position_in_one_line() {
    let events = decode_stream(b"Duration: 00:00:10.00, time=00:00:05.00\n");
    assert_eq!(
        show(&events),
        strings(&["log:Duration: 00:00:10.00, time=00:00:05.00", "pct:5000000/10000000"])
    );
}

#[test]
fn markers_are_found_anywhere_in_a_line() {
    let events = decode_stream(b"  Duration: 1:00:00, start: 0\nsize=1kB time=00:30:00.00 bitrate\n");
    assert_eq!(percentages(&events), vec![0.5]);
    assert_eq!(show(&events)[2], "pct:1800000000/3600000000");
}

#[test]
fn minutes_and_seconds_have_two_digits() {
    let events = decode_stream(b"Duration: 0:1:30\ntime=00:00:05.00\n");
    assert_eq!(percentages(&events), Vec::<f64>::new());
    let events = decode_stream(b"Duration: 00:00:10\ntime=0:0:5\n");
    assert_eq!(percentages(&events), Vec::<f64>::new());
}

#[test]
fn fractions_of_a_second_count_to_the_microsecond() {
    let events = decode_stream(b"Duration: 00:00:01.5\ntime=00:00:00.25\n");
    assert_eq!(show(&events)[2], "pct:250000/1500000");
    let events = decode_stream(b"Duration: 00:00:01\ntime=00:00:00.1234567\n");
    assert_eq!(show(&events)[2], "pct:123456/1000000");
}

#[test]
fn digits_of_other_scripts_count_as_zero() {
    let stream = "Duration: 00:\u{0660}\u{0661}:30\ntime=00:00:15.00\n";
    let events = decode_stream(stream.as_bytes());
    assert_eq!(show(&events)[2], "pct:15000000/30000000");
    let stream = "Duration: \u{0660}\u{0660}:\u{0660}\u{0660}:\u{0663}\u{0660}\nDuration: 00:00:10\ntime=00:00:05\n";
    let events = decode_stream(stream.as_bytes());
    assert_eq!(events.len(), 3);
    assert_eq!(percentages(&events), Vec::<f64>::new());
}

#[test]
fn hours_beyond_32_bits_count_as_zero() {
    let events = decode_stream(b"Duration: 99999999999:00:10.00\ntime=00:00:05.00\n");
    assert_eq!(show(&events)[2], "pct:5000000/10000000");
    let events = decode_stream(b"Duration: 4294967295:00:00\ntime=1:00:00\n");
    assert_eq!(show(&events)[2], "pct:3600000000/15461882262000000000");
}

#[test]
fn zero_duration_gives_no_fraction_and_stays() {
    let events = decode_stream(b"Duration: 00:00:00.00\nDuration: 00:00:10.00\ntime=00:00:05.00\n");
    assert_eq!(events.len(), 3);
    assert_eq!(percentages(&events), Vec::<f64>::new());
}

#[test]
fn bytes_that_are_no_text_are_replaced() {
    let events = decode_stream(&[0xff, b'a', b'\n']);
    assert_eq!(show(&events), strings(&["log:\u{fffd}a"]));
    let events = decode_stream("h\u{e9}llo\n".as_bytes());
    assert_eq!(show(&events), strings(&["log:h\u{e9}llo"]));
}

#[test]
fn byte_by_byte_is_the_same_as_all_at_once() {
    let stream = b"Duration: 00:00:10.00\ntime=00:00:05.00\rframe=1 time=00:00:10.00\r\ntail";
    let mut state = StreamState::new();
    let mut events = Vec::new();
    for b in stream.iter() {
        events.extend(state.push_byte(*b));
    }
    assert_eq!(show(&events), show(&decode_stream(stream)));
    assert_eq!(state.total_duration(), Some(10_000_000));

    let mut state = StreamState::new();
    let mut events = state.push_bytes(&stream[..30]);
    events.extend(state.push_bytes(&stream[30..]));
    assert_eq!(show(&events), show(&decode_stream(stream)));
}

#[test]
fn a_line_with_what_was_found_in_it() {
    let mut state = StreamState::new();
    assert_eq!(state.total_duration(), None);
    let events = state.note_line(b"x", "x".to_string(), None, Some(5));
    assert_eq!(show(&events), strings(&["log:x"]));
    let events = state.note_line(b"frame=1", "frame=1".to_string(), Some(10), Some(5));
    assert_eq!(show(&events), strings(&["pct:5/10"]));
    let events = state.note_line(b"y", "y".to_string(), Some(20), Some(30));
    assert_eq!(show(&events), strings(&["log:y", "pct:10/10"]));
    assert_eq!(state.total_duration(), Some(10));
    let events = state.accept_line(b"time=00:00:00.000004");
    assert_eq!(show(&events), strings(&["log:time=00:00:00.000004", "pct:4/10"]));
}
