use mistboard::clock::now_rfc3339;

#[test]
fn clock_reads_as_rfc3339() {
    let t = now_rfc3339().expect("the clock reads a time between the years 1 and 9999");
    let parsed = chrono::DateTime::parse_from_rfc3339(&t).expect("RFC 3339 text");
    let now = chrono::Utc::now();
    let diff = (now - parsed.with_timezone(&chrono::Utc)).num_seconds().abs();
    assert!(diff < 60);
    let b = t.as_bytes();
    assert_eq!(b[4], b'-');
    assert_eq!(b[10], b'T');
    assert_eq!(b[b.len() - 3], b':');
}
