use mistboard::report::{weather_info, weather_info_at, CurrentConditions};

#[test]
fn missing_values_take_defaults() {
    let cur = CurrentConditions {
        temperature: None,
        weather_code: None,
        wind_label: "微风".to_string(),
        wind_speed: "0".to_string(),
        relative_humidity: None,
    };
    let info = weather_info_at(&"拉萨".to_string(), &cur, "t0".to_string());
    assert_eq!(info.temp, "--");
    assert_eq!(info.code, 0);
    assert_eq!(info.text, "晴");
    assert_eq!(info.wind, "微风 0km/h");
    assert_eq!(info.humidity, "0%");
    assert_eq!(info.fetched_at, "t0");
}

#[test]
fn report_fields() {
    let cur = CurrentConditions {
        temperature: Some("-5".to_string()),
        weather_code: Some(75),
        wind_label: "强风".to_string(),
        wind_speed: "25".to_string(),
        relative_humidity: Some(100),
    };
    let info = weather_info_at(&"哈尔滨".to_string(), &cur, "t1".to_string());
    assert_eq!(info.city, "哈尔滨");
    assert_eq!(info.temp, "-5");
    assert_eq!(info.code, 75);
    assert_eq!(info.text, "大雪");
    assert_eq!(info.wind, "强风 25km/h");
    assert_eq!(info.humidity, "100%");
    let copy = info.duplicate();
    assert_eq!(copy.wind, info.wind);
    assert_eq!(copy.fetched_at, "t1");
}

#[test]
fn report_stamped_with_current_time() {
    let cur = CurrentConditions {
        temperature: Some("18".to_string()),
        weather_code: Some(3),
        wind_label: "和风".to_string(),
        wind_speed: "15".to_string(),
        relative_humidity: Some(-1),
    };
    let info = weather_info(&"重庆".to_string(), &cur);
    assert_eq!(info.text, "阴");
    assert_eq!(info.humidity, "-1%");
    assert!(chrono::DateTime::parse_from_rfc3339(&info.fetched_at).is_ok());
}
