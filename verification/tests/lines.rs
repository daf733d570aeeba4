use framix::lines::{read_lines, LineReader};

fn bytes(items: &[&str]) -> Vec<Vec<u8>> {
    items.iter().map(|s| s.as_bytes().to_vec()).collect()
}

#[test]
fn complete_lines_come_out_in_order() {
    assert_eq!(read_lines(b"alpha\nbeta\ngamma\n"), bytes(&["alpha", "beta", "gamma"]));
}

#[test]
fn terminators_are_stripped_and_pairs_give_no_empty_line() {
    assert_eq!(read_lines(b"a\r\nb\rc\n\n\r"), bytes(&["a", "b", "c"]));
}

#[test]
fn what_is_not_terminated_is_not_given_out() {
    assert_eq!(read_lines(b"a\nrest"), bytes(&["a"]));
    assert_eq!(read_lines(b"rest"), Vec::<Vec<u8>>::new());
    assert_eq!(read_lines(b""), Vec::<Vec<u8>>::new());
    assert_eq!(read_lines(b"\n\n"), Vec::<Vec<u8>>::new());
}

#[test]
fn reader_gives_a_line_at_its_terminator() {
    let mut reader = LineReader::new();
    assert_eq!(reader.feed(b'\n'), None);
    assert_eq!(reader.feed(b'h'), None);
    assert_eq!(reader.feed(b'i'), None);
    assert_eq!(reader.pending(), b"hi");
    assert_eq!(reader.feed(b'\r'), Some(b"hi".to_vec()));
    assert_eq!(reader.pending(), b"");
    assert_eq!(reader.feed(b'\n'), None);
}
