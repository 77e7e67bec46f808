use mistboard::city::saved_city;

#[test]
fn saved_city_is_trimmed() {
    assert_eq!(saved_city("  杭州\n"), Some("杭州".to_string()));
    assert_eq!(saved_city("Beijing"), Some("Beijing".to_string()));
}

#[test]
fn blank_saved_text_names_no_city() {
    assert_eq!(saved_city(""), None);
    assert_eq!(saved_city(" \t\r\n"), None);
}

#[test]
fn saved_city_round_trip() {
    let first = saved_city("  成都  ").unwrap();
    assert_eq!(saved_city(&first), Some(first.clone()));
}
