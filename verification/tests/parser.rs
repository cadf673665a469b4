use evac::parser::Parser;

#[test]
fn decoder_empty_input() {
    let mut p = Parser::new(Vec::new());
    assert!(p.next().is_none());
}

#[test]
fn decoder_zero_length_prefix() {
    let mut p = Parser::new(vec![0u8, 9, 65]);
    assert!(p.next().is_none());
}

#[test]
fn decoder_length_one_has_no_payload() {
    let mut p = Parser::new(vec![1u8, 9]);
    assert!(p.next().is_none());
}

#[test]
fn decoder_truncated_record() {
    // The length byte promises five bytes but only two follow.
    let mut p = Parser::new(vec![5u8, 9, 65]);
    assert!(p.next().is_none());
}

#[test]
fn decoder_single_record() {
    // L = 4 covers the tag byte plus three payload bytes.
    let mut p = Parser::new(vec![4u8, 9, 65, 66, 67]);
    let rec = p.next().expect("one record");
    assert_eq!(rec.tag, 9);
    assert_eq!(rec.data, vec![65, 66, 67]);
    assert!(p.next().is_none());
}

#[test]
fn decoder_round_trip_two_records() {
    // Two records written in length-tag-value form decode back exactly.
    let mut data: Vec<u8> = Vec::new();
    data.extend_from_slice(&[3, 8, 104, 105]);
    data.extend_from_slice(&[4, 22, 1, 2, 3]);
    let mut p = Parser::new(data);
    let first = p.next().expect("first record");
    assert_eq!(first.tag, 8);
    assert_eq!(first.data, vec![104, 105]);
    let second = p.next().expect("second record");
    assert_eq!(second.tag, 22);
    assert_eq!(second.data, vec![1, 2, 3]);
    assert!(p.next().is_none());
}

#[test]
fn decoder_stops_at_bad_length_mid_stream() {
    // A valid record, then a length that runs past the end: decoding stops
    // gracefully after the first record.
    let mut p = Parser::new(vec![3u8, 8, 104, 105, 200, 1]);
    let first = p.next().expect("first record");
    assert_eq!(first.tag, 8);
    assert!(p.next().is_none());
    assert!(p.next().is_none());
}
