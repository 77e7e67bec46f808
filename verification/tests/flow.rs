use mistboard::flow::{
    after_city_search, after_geo_cache, after_geo_cache_written, after_ip_location,
    after_saved_city, after_weather_fetch, after_weather_fetch_at, after_weather_stored,
    get_weather, get_weather_by_city, HttpAnswer, WeatherStep,
};
use mistboard::geo::{GeoCacheEntry, IpLocation, Place};
use mistboard::report::{weather_info_at, CurrentConditions};

fn place(name: &str, lat: f64, lon: f64) -> Place {
    Place { name: name.to_string(), lat_bits: lat.to_bits(), lon_bits: lon.to_bits() }
}

fn conditions() -> CurrentConditions {
    CurrentConditions {
        temperature: Some("23".to_string()),
        weather_code: Some(61),
        wind_label: "轻风".to_string(),
        wind_speed: "7".to_string(),
        relative_humidity: Some(80),
    }
}

fn done_error(step: WeatherStep) -> String {
    match step {
        WeatherStep::Done { outcome: Err(m) } => m,
        _ => panic!("expected the request to end with an error"),
    }
}

#[test]
fn board_request_starts_with_saved_city() {
    assert!(matches!(get_weather(), WeatherStep::LoadSavedCity));
}

#[test]
fn named_city_request_reads_cache() {
    match get_weather_by_city("深圳".to_string()) {
        WeatherStep::ReadGeoCache { city } => assert_eq!(city, "深圳"),
        _ => panic!("expected a cache read"),
    }
}

#[test]
fn saved_city_is_preferred() {
    match after_saved_city(Ok(Some("北京".to_string()))) {
        WeatherStep::ReadGeoCache { city } => assert_eq!(city, "北京"),
        _ => panic!("expected a cache read"),
    }
}

#[test]
fn no_saved_city_means_ip_location() {
    assert!(matches!(after_saved_city(Ok(None)), WeatherStep::LocateByIp));
    assert!(matches!(after_saved_city(Ok(Some(String::new()))), WeatherStep::LocateByIp));
    assert!(matches!(after_saved_city(Err("denied".to_string())), WeatherStep::LocateByIp));
}

fn entry(city: &str, p: Place) -> GeoCacheEntry {
    GeoCacheEntry { city: city.to_string(), place: p }
}

#[test]
fn cache_hit_skips_geocoding() {
    let cached = entry("北京", place("北京市", 39.9, 116.4));
    match after_geo_cache("北京".to_string(), Ok(Some(cached))) {
        WeatherStep::FetchWeather { place } => {
            assert_eq!(place.name, "北京市");
            assert_eq!(f64::from_bits(place.lat_bits), 39.9);
            assert_eq!(f64::from_bits(place.lon_bits), 116.4);
        },
        _ => panic!("expected a weather fetch"),
    }
}

#[test]
fn cache_for_another_name_is_not_used() {
    let cached = entry("上海", place("上海市", 31.2, 121.5));
    match after_geo_cache("北京".to_string(), Ok(Some(cached))) {
        WeatherStep::SearchCity { city } => assert_eq!(city, "北京"),
        _ => panic!("expected a search"),
    }
    assert!(matches!(after_geo_cache("北京".to_string(), Ok(None)), WeatherStep::SearchCity { .. }));
}

#[test]
fn unavailable_cache_ends_request() {
    assert_eq!(done_error(after_geo_cache("x".to_string(), Err("no data dir".to_string()))), "no data dir");
}

#[test]
fn cache_serves_place_by_its_own_name() {
    let cached = entry("Beijing", place("北京", 39.9, 116.4));
    match after_geo_cache("北京".to_string(), Ok(Some(cached))) {
        WeatherStep::FetchWeather { place } => assert_eq!(place.name, "北京"),
        _ => panic!("expected a weather fetch"),
    }
    let old_format = entry("", place("北京", 39.9, 116.4));
    assert!(matches!(after_geo_cache("北京".to_string(), Ok(Some(old_format))), WeatherStep::FetchWeather { .. }));
}

#[test]
fn search_result_is_cached_then_used() {
    let results = vec![place("广州", 23.1, 113.3), place("广州市", 0.0, 0.0)];
    let step = after_city_search("广州".to_string(), HttpAnswer::Received(Some(results)));
    let written = match step {
        WeatherStep::WriteGeoCache { city, place } => {
            assert_eq!(city, "广州");
            place
        },
        _ => panic!("expected a cache write"),
    };
    assert_eq!(written.name, "广州");
    assert_eq!(f64::from_bits(written.lat_bits), 23.1);
    match after_geo_cache_written(written) {
        WeatherStep::FetchWeather { place } => assert_eq!(place.name, "广州"),
        _ => panic!("expected a weather fetch"),
    }
}

#[test]
fn stored_place_is_read_back() {
    let step = after_city_search("北京".to_string(), HttpAnswer::Received(Some(vec![place("北京市", 39.9, 116.4)])));
    let (key, written) = match step {
        WeatherStep::WriteGeoCache { city, place } => (city, place),
        _ => panic!("expected a cache write"),
    };
    assert_eq!(key, "北京");
    match after_geo_cache("北京".to_string(), Ok(Some(entry(&key, written)))) {
        WeatherStep::FetchWeather { place } => {
            assert_eq!(place.name, "北京市");
            assert_eq!(f64::from_bits(place.lat_bits), 39.9);
        },
        _ => panic!("expected the cached place without a new search"),
    }
}

#[test]
fn search_failures_end_request() {
    assert_eq!(
        done_error(after_city_search("x".to_string(), HttpAnswer::SendFailed("timed out".to_string()))),
        "城市搜索失败: timed out"
    );
    assert_eq!(
        done_error(after_city_search("x".to_string(), HttpAnswer::Unreadable("bad json".to_string()))),
        "解析城市失败: bad json"
    );
    assert_eq!(done_error(after_city_search("x".to_string(), HttpAnswer::Received(None))), "未找到该城市");
    assert_eq!(done_error(after_city_search("x".to_string(), HttpAnswer::Received(Some(vec![])))), "未找到该城市");
}

#[test]
fn saved_city_not_found_ends_without_ip_location() {
    let step = after_saved_city(Ok(Some("不存在的城市".to_string())));
    let city = match step {
        WeatherStep::ReadGeoCache { city } => city,
        _ => panic!("expected a cache read"),
    };
    let step = after_geo_cache(city, Ok(None));
    let city = match step {
        WeatherStep::SearchCity { city } => city,
        _ => panic!("expected a search"),
    };
    assert_eq!(done_error(after_city_search(city, HttpAnswer::Received(None))), "未找到该城市");
}

#[test]
fn ip_location_success() {
    let loc = IpLocation {
        status: "success".to_string(),
        city: Some("南京".to_string()),
        lat_bits: Some(32.06f64.to_bits()),
        lon_bits: Some(118.8f64.to_bits()),
    };
    match after_ip_location(HttpAnswer::Received(loc)) {
        WeatherStep::FetchWeather { place } => {
            assert_eq!(place.name, "南京");
            assert_eq!(f64::from_bits(place.lat_bits), 32.06);
            assert_eq!(f64::from_bits(place.lon_bits), 118.8);
        },
        _ => panic!("expected a weather fetch"),
    }
}

#[test]
fn ip_location_failures() {
    let failed = IpLocation { status: "fail".to_string(), city: Some("x".to_string()), lat_bits: Some(0), lon_bits: Some(0) };
    assert_eq!(done_error(after_ip_location(HttpAnswer::Received(failed))), "IP 定位失败");
    let partial = IpLocation { status: "success".to_string(), city: Some("x".to_string()), lat_bits: None, lon_bits: Some(0) };
    assert_eq!(done_error(after_ip_location(HttpAnswer::Received(partial))), "定位数据为空");
    let nameless = IpLocation { status: "success".to_string(), city: None, lat_bits: Some(0), lon_bits: Some(0) };
    assert_eq!(done_error(after_ip_location(HttpAnswer::Received(nameless))), "定位数据为空");
    assert_eq!(done_error(after_ip_location(HttpAnswer::SendFailed("dns".to_string()))), "定位请求失败: dns");
    assert_eq!(done_error(after_ip_location(HttpAnswer::Unreadable("eof".to_string()))), "解析定位失败: eof");
}

#[test]
fn weather_answer_becomes_report() {
    let step = after_weather_fetch_at(
        place("上海", 31.2, 121.5),
        HttpAnswer::Received(conditions()),
        "2024-05-01T08:00:00+08:00".to_string(),
    );
    match step {
        WeatherStep::StoreWeather { info } => {
            assert_eq!(info.city, "上海");
            assert_eq!(info.temp, "23");
            assert_eq!(info.text, "小雨");
            assert_eq!(info.code, 61);
            assert_eq!(info.wind, "轻风 7km/h");
            assert_eq!(info.humidity, "80%");
            assert_eq!(info.fetched_at, "2024-05-01T08:00:00+08:00");
        },
        _ => panic!("expected the report to be stored"),
    }
}

#[test]
fn weather_answer_stamped_now() {
    match after_weather_fetch(place("上海", 31.2, 121.5), HttpAnswer::Received(conditions())) {
        WeatherStep::StoreWeather { info } => {
            assert_eq!(info.text, "小雨");
            assert!(chrono::DateTime::parse_from_rfc3339(&info.fetched_at).is_ok());
        },
        _ => panic!("expected the report to be stored"),
    }
}

#[test]
fn weather_failures() {
    assert_eq!(
        done_error(after_weather_fetch(place("a", 0.0, 0.0), HttpAnswer::SendFailed("refused".to_string()))),
        "天气请求失败: refused"
    );
    assert_eq!(
        done_error(after_weather_fetch(place("a", 0.0, 0.0), HttpAnswer::Unreadable("missing field".to_string()))),
        "解析天气失败: missing field"
    );
}

#[test]
fn stored_report_ends_request() {
    let info = weather_info_at(&"上海".to_string(), &conditions(), "t".to_string());
    match after_weather_stored(info, Ok(())) {
        WeatherStep::Done { outcome: Ok(info) } => assert_eq!(info.city, "上海"),
        _ => panic!("expected success"),
    }
    let info = weather_info_at(&"上海".to_string(), &conditions(), "t".to_string());
    assert_eq!(done_error(after_weather_stored(info, Err("disk full".to_string()))), "disk full");
}
