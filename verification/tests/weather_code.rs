use mistboard::weather_code::wmo_text;

#[test]
fn wmo_clear_and_clouds() {
    assert_eq!(wmo_text(0), "晴");
    assert_eq!(wmo_text(1), "多云");
    assert_eq!(wmo_text(2), "多云");
    assert_eq!(wmo_text(3), "阴");
}

#[test]
fn wmo_fog_drizzle_and_rain() {
    assert_eq!(wmo_text(45), "雾");
    assert_eq!(wmo_text(48), "雾");
    assert_eq!(wmo_text(51), "毛毛雨");
    assert_eq!(wmo_text(53), "毛毛雨");
    assert_eq!(wmo_text(55), "毛毛雨");
    assert_eq!(wmo_text(56), "冻雨");
    assert_eq!(wmo_text(57), "冻雨");
    assert_eq!(wmo_text(61), "小雨");
    assert_eq!(wmo_text(63), "中雨");
    assert_eq!(wmo_text(65), "大雨");
    assert_eq!(wmo_text(66), "冻雨");
    assert_eq!(wmo_text(67), "冻雨");
}

#[test]
fn wmo_snow_showers_and_storms() {
    assert_eq!(wmo_text(71), "小雪");
    assert_eq!(wmo_text(73), "小雪");
    assert_eq!(wmo_text(75), "大雪");
    assert_eq!(wmo_text(77), "米雪");
    assert_eq!(wmo_text(80), "阵雨");
    assert_eq!(wmo_text(81), "阵雨");
    assert_eq!(wmo_text(82), "大阵雨");
    assert_eq!(wmo_text(85), "阵雪");
    assert_eq!(wmo_text(86), "阵雪");
    assert_eq!(wmo_text(95), "雷暴");
    assert_eq!(wmo_text(96), "雷暴");
    assert_eq!(wmo_text(99), "雷暴");
}

#[test]
fn wmo_unknown_codes() {
    assert_eq!(wmo_text(4), "未知");
    assert_eq!(wmo_text(62), "未知");
    assert_eq!(wmo_text(100), "未知");
    assert_eq!(wmo_text(-1), "未知");
    assert_eq!(wmo_text(i32::MAX), "未知");
    assert_eq!(wmo_text(i32::MIN), "未知");
}
