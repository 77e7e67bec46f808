use mistboard::memo::{memo_or_blank, stamp_memo, stamp_memo_at, MemoData};

#[test]
fn missing_memo_is_blank() {
    let m = memo_or_blank(None).ok().unwrap();
    assert_eq!(m.content, "");
    assert_eq!(m.updated_at, "");
}

#[test]
fn stored_memo_is_shown_as_stored() {
    let stored = MemoData { content: "买牛奶".to_string(), updated_at: "2024-01-02T03:04:05+08:00".to_string() };
    let m = memo_or_blank(Some(Ok(stored))).ok().unwrap();
    assert_eq!(m.content, "买牛奶");
    assert_eq!(m.updated_at, "2024-01-02T03:04:05+08:00");
}

#[test]
fn unreadable_memo_reports_error() {
    let r = memo_or_blank(Some(Err("expected value at line 1".to_string())));
    assert_eq!(r.err().unwrap(), "expected value at line 1");
}

#[test]
fn stamped_memo_keeps_content_and_has_a_time() {
    let m = stamp_memo("记得开会".to_string());
    assert_eq!(m.content, "记得开会");
    assert!(!m.updated_at.is_empty());
    assert!(chrono::DateTime::parse_from_rfc3339(&m.updated_at).is_ok());
}

#[test]
fn memo_stamped_at_given_time() {
    let m = stamp_memo_at("周末爬山".to_string(), "2025-03-01T09:30:00+08:00".to_string());
    assert_eq!(m.content, "周末爬山");
    assert_eq!(m.updated_at, "2025-03-01T09:30:00+08:00");
}
