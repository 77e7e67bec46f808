//! How a request for the weather proceeds.
//!
//! A request is a sequence of steps. Each [`WeatherStep`] names the outside work to do next
//! (read a file, ask a web service, write a file) together with what the request has learned
//! so far. Whoever runs the request performs that work and passes its outcome to the `after_*`
//! function of the step, which decides the next step. [`WeatherStep::Done`] ends the request.
//!
//! The weather for the board comes from the saved city when one is set, and the location of
//! the machine's IP address is used only when no city is set. The weather for a city, saved
//! or named by the user, comes from that city or the request fails. Coordinates found for a
//! city are kept in a one-entry cache, beside the name that was asked for, so that asking
//! again under the same name needs no geocoding, whatever name the geocoder gave the place;
//! the cache also serves a request for the place's own name.
use vstd::prelude::*;

use crate::clock::stamp_or_blank;
use crate::geo::{
    cache_serves, cached_place, city_not_found, city_not_found_msg, first_place, first_result,
    located_place, opt_chars, opt_entry, opt_places, place_from_ip, GeoCacheEntry,
    GeoCacheEntryView, IpLocation, IpLocationView, Place, PlaceView,
};
use crate::report::{
    report, weather_info, weather_info_at, CurrentConditions, CurrentConditionsView, WeatherInfo,
    WeatherInfoView,
};

verus! {

/// The outcome of asking a web service: the request could not be sent, the reply could not be
/// read, or the reply arrived and was read. The two failures carry the error's text.
pub enum HttpAnswer<T> {
    SendFailed(String),
    Unreadable(String),
    Received(T),
}

/// The mathematical value of an [`HttpAnswer`].
pub enum HttpAnswerView<V> {
    SendFailed(Seq<char>),
    Unreadable(Seq<char>),
    Received(V),
}

/// The view of an answer whose payload is viewed by `f`.
pub open spec fn answer_view<T, V>(a: HttpAnswer<T>, f: spec_fn(T) -> V) -> HttpAnswerView<V> {
    match a {
        HttpAnswer::SendFailed(d) => HttpAnswerView::SendFailed(d@),
        HttpAnswer::Unreadable(d) => HttpAnswerView::Unreadable(d@),
        HttpAnswer::Received(t) => HttpAnswerView::Received(f(t)),
    }
}

/// The view of a geocoding answer.
pub open spec fn search_view(a: HttpAnswer<Option<Vec<Place>>>) -> HttpAnswerView<
    Option<Seq<PlaceView>>,
> {
    answer_view(a, |o: Option<Vec<Place>>| opt_places(o))
}

/// The view of an IP location answer.
pub open spec fn location_view(a: HttpAnswer<IpLocation>) -> HttpAnswerView<IpLocationView> {
    answer_view(a, |l: IpLocation| l@)
}

/// The view of a forecast answer.
pub open spec fn conditions_view(a: HttpAnswer<CurrentConditions>) -> HttpAnswerView<
    CurrentConditionsView,
> {
    answer_view(a, |c: CurrentConditions| c@)
}

/// The next piece of outside work in a request for the weather, or its end.
pub enum WeatherStep {
    /// Read the saved city; then call [`after_saved_city`].
    LoadSavedCity,
    /// Read the cached coordinates; then call [`after_geo_cache`] with `city`.
    ReadGeoCache { city: String },
    /// Ask the geocoder for `city`; then call [`after_city_search`] with `city`.
    SearchCity { city: String },
    /// Store `place` as the cached coordinates for the name `city`, ignoring any failure; then
    /// call [`after_geo_cache_written`] with `place`.
    WriteGeoCache { city: String, place: Place },
    /// Ask the IP location service where the machine is; then call [`after_ip_location`].
    LocateByIp,
    /// Ask the forecast service for the current conditions at `place`; then call
    /// [`after_weather_fetch`] with `place`.
    FetchWeather { place: Place },
    /// Store `info` as the last known weather; then call [`after_weather_stored`] with `info`.
    StoreWeather { info: WeatherInfo },
    /// The request is over, with the report or the message of why there is none.
    Done { outcome: Result<WeatherInfo, String> },
}

/// The mathematical value of a [`WeatherStep`].
pub enum WeatherStepView {
    LoadSavedCity,
    ReadGeoCache { city: Seq<char> },
    SearchCity { city: Seq<char> },
    WriteGeoCache { city: Seq<char>, place: PlaceView },
    LocateByIp,
    FetchWeather { place: PlaceView },
    StoreWeather { info: WeatherInfoView },
    Done { outcome: Result<WeatherInfoView, Seq<char>> },
}

impl View for WeatherStep {
    type V = WeatherStepView;

    open spec fn view(&self) -> WeatherStepView {
        match self {
            WeatherStep::LoadSavedCity => WeatherStepView::LoadSavedCity,
            WeatherStep::ReadGeoCache { city } => WeatherStepView::ReadGeoCache { city: city@ },
            WeatherStep::SearchCity { city } => WeatherStepView::SearchCity { city: city@ },
            WeatherStep::WriteGeoCache { city, place } => WeatherStepView::WriteGeoCache {
                city: city@,
                place: place@,
            },
            WeatherStep::LocateByIp => WeatherStepView::LocateByIp,
            WeatherStep::FetchWeather { place } => WeatherStepView::FetchWeather { place: place@ },
            WeatherStep::StoreWeather { info } => WeatherStepView::StoreWeather { info: info@ },
            WeatherStep::Done { outcome } => WeatherStepView::Done {
                outcome: match outcome {
                    Ok(info) => Ok(info@),
                    Err(m) => Err(m@),
                },
            },
        }
    }
}

/// How many more answers a request can take at most from this step on.
pub open spec fn rank(s: WeatherStepView) -> nat {
    match s {
        WeatherStepView::LoadSavedCity => 6,
        WeatherStepView::ReadGeoCache { .. } => 5,
        WeatherStepView::SearchCity { .. } => 4,
        WeatherStepView::WriteGeoCache { .. } => 3,
        WeatherStepView::LocateByIp => 3,
        WeatherStepView::FetchWeather { .. } => 2,
        WeatherStepView::StoreWeather { .. } => 1,
        WeatherStepView::Done { .. } => 0,
    }
}

/// The end of a request with the message `msg`.
pub open spec fn failed(msg: Seq<char>) -> WeatherStepView {
    WeatherStepView::Done { outcome: Err(msg) }
}

/// The view of the outcome of reading the saved city.
pub open spec fn loaded_view(loaded: Result<Option<String>, String>) -> Result<
    Option<Seq<char>>,
    Seq<char>,
> {
    match loaded {
        Ok(c) => Ok(opt_chars(c)),
        Err(e) => Err(e@),
    }
}

/// The view of the outcome of reading the cached coordinates.
pub open spec fn lookup_view(lookup: Result<Option<GeoCacheEntry>, String>) -> Result<
    Option<GeoCacheEntryView>,
    Seq<char>,
> {
    match lookup {
        Ok(e) => Ok(opt_entry(e)),
        Err(e) => Err(e@),
    }
}

/// The view of the outcome of storing a report.
pub open spec fn stored_view(stored: Result<(), String>) -> Result<(), Seq<char>> {
    match stored {
        Ok(()) => Ok(()),
        Err(e) => Err(e@),
    }
}

/// After reading the saved city: a non-empty saved city is placed; only without one (none
/// saved, blank, or unreadable) is the machine located by its IP.
pub open spec fn next_after_saved_city(loaded: Result<Option<Seq<char>>, Seq<char>>) -> WeatherStepView {
    match loaded {
        Ok(Some(city)) => if city.len() > 0 {
            WeatherStepView::ReadGeoCache { city }
        } else {
            WeatherStepView::LocateByIp
        },
        _ => WeatherStepView::LocateByIp,
    }
}

/// After reading the cached coordinates: when the cache cannot even be located the request
/// ends with that error; a cache entry for the name `city` gives its place as it is;
/// otherwise the geocoder is asked.
pub open spec fn next_after_geo_cache(
    city: Seq<char>,
    lookup: Result<Option<GeoCacheEntryView>, Seq<char>>,
) -> WeatherStepView {
    match lookup {
        Err(e) => failed(e),
        Ok(cached) => match cache_serves(cached, city) {
            Some(place) => WeatherStepView::FetchWeather { place },
            None => WeatherStepView::SearchCity { city },
        },
    }
}

/// After asking the geocoder for `city`: its first result is cached for the name `city` and
/// then used; no result, or a failed request, ends the request with the reason.
pub open spec fn next_after_city_search(
    city: Seq<char>,
    answer: HttpAnswerView<Option<Seq<PlaceView>>>,
) -> WeatherStepView {
    match answer {
        HttpAnswerView::SendFailed(d) => failed("城市搜索失败: "@ + d),
        HttpAnswerView::Unreadable(d) => failed("解析城市失败: "@ + d),
        HttpAnswerView::Received(results) => match first_result(results) {
            Some(place) => WeatherStepView::WriteGeoCache { city, place },
            None => failed(city_not_found_msg()),
        },
    }
}

/// After asking the IP location service: its city and coordinates are used, or the request
/// ends with the reason they cannot be.
pub open spec fn next_after_ip_location(answer: HttpAnswerView<IpLocationView>) -> WeatherStepView {
    match answer {
        HttpAnswerView::SendFailed(d) => failed("定位请求失败: "@ + d),
        HttpAnswerView::Unreadable(d) => failed("解析定位失败: "@ + d),
        HttpAnswerView::Received(loc) => match located_place(loc) {
            Ok(place) => WeatherStepView::FetchWeather { place },
            Err(m) => failed(m),
        },
    }
}

/// After asking the forecast service at `place`, at the time `fetched_at`: the report is
/// stored, or the request ends with the reason there is none.
pub open spec fn next_after_weather_fetch(
    place: PlaceView,
    answer: HttpAnswerView<CurrentConditionsView>,
    fetched_at: Seq<char>,
) -> WeatherStepView {
    match answer {
        HttpAnswerView::SendFailed(d) => failed("天气请求失败: "@ + d),
        HttpAnswerView::Unreadable(d) => failed("解析天气失败: "@ + d),
        HttpAnswerView::Received(cur) => WeatherStepView::StoreWeather {
            info: report(place.name, cur, fetched_at),
        },
    }
}

/// After storing the report `info`: the request ends with it, or with the storing error.
pub open spec fn next_after_weather_stored(
    info: WeatherInfoView,
    stored: Result<(), Seq<char>>,
) -> WeatherStepView {
    match stored {
        Ok(()) => WeatherStepView::Done { outcome: Ok(info) },
        Err(e) => failed(e),
    }
}

/// The first step of a request for the board's weather.
pub fn get_weather() -> (r: WeatherStep)
    ensures
        r@ == WeatherStepView::LoadSavedCity,
{
    WeatherStep::LoadSavedCity
}

/// The first step of a request for the weather in `city`.
pub fn get_weather_by_city(city: String) -> (r: WeatherStep)
    ensures
        r@ == (WeatherStepView::ReadGeoCache { city: city@ }),
{
    WeatherStep::ReadGeoCache { city }
}

/// The step after reading the saved city.
pub fn after_saved_city(loaded: Result<Option<String>, String>) -> (r: WeatherStep)
    ensures
        r@ == next_after_saved_city(loaded_view(loaded)),
{
    match loaded {
        Ok(Some(city)) => {
            if city.as_str().is_empty() {
                WeatherStep::LocateByIp
            } else {
                WeatherStep::ReadGeoCache { city }
            }
        },
        _ => WeatherStep::LocateByIp,
    }
}

/// The step after reading the cached coordinates while placing `city`.
pub fn after_geo_cache(city: String, lookup: Result<Option<GeoCacheEntry>, String>) -> (r:
    WeatherStep)
    ensures
        r@ == next_after_geo_cache(city@, lookup_view(lookup)),
{
    match lookup {
        Err(e) => WeatherStep::Done { outcome: Err(e) },
        Ok(cached) => match cached_place(cached, &city) {
            Some(place) => WeatherStep::FetchWeather { place },
            None => WeatherStep::SearchCity { city },
        },
    }
}

/// The step after asking the geocoder for `city`.
pub fn after_city_search(city: String, answer: HttpAnswer<Option<Vec<Place>>>) -> (r:
    WeatherStep)
    ensures
        r@ == next_after_city_search(city@, search_view(answer)),
{
    match answer {
        HttpAnswer::SendFailed(d) => WeatherStep::Done {
            outcome: Err(String::from_str("城市搜索失败: ").concat(d.as_str())),
        },
        HttpAnswer::Unreadable(d) => WeatherStep::Done {
            outcome: Err(String::from_str("解析城市失败: ").concat(d.as_str())),
        },
        HttpAnswer::Received(results) => match first_place(results) {
            Some(place) => WeatherStep::WriteGeoCache { city, place },
            None => WeatherStep::Done { outcome: Err(city_not_found()) },
        },
    }
}

/// The step after storing `place` in the coordinate cache.
pub fn after_geo_cache_written(place: Place) -> (r: WeatherStep)
    ensures
        r@ == (WeatherStepView::FetchWeather { place: place@ }),
{
    WeatherStep::FetchWeather { place }
}

/// The step after asking the IP location service.
pub fn after_ip_location(answer: HttpAnswer<IpLocation>) -> (r: WeatherStep)
    ensures
        r@ == next_after_ip_location(location_view(answer)),
{
    match answer {
        HttpAnswer::SendFailed(d) => WeatherStep::Done {
            outcome: Err(String::from_str("定位请求失败: ").concat(d.as_str())),
        },
        HttpAnswer::Unreadable(d) => WeatherStep::Done {
            outcome: Err(String::from_str("解析定位失败: ").concat(d.as_str())),
        },
        HttpAnswer::Received(loc) => match place_from_ip(loc) {
            Ok(place) => WeatherStep::FetchWeather { place },
            Err(m) => WeatherStep::Done { outcome: Err(m) },
        },
    }
}

/// The step after asking the forecast service at `place`, with a report stamped
/// `fetched_at`.
pub fn after_weather_fetch_at(
    place: Place,
    answer: HttpAnswer<CurrentConditions>,
    fetched_at: String,
) -> (r: WeatherStep)
    ensures
        r@ == next_after_weather_fetch(place@, conditions_view(answer), fetched_at@),
{
    match answer {
        HttpAnswer::SendFailed(d) => WeatherStep::Done {
            outcome: Err(String::from_str("天气请求失败: ").concat(d.as_str())),
        },
        HttpAnswer::Unreadable(d) => WeatherStep::Done {
            outcome: Err(String::from_str("解析天气失败: ").concat(d.as_str())),
        },
        HttpAnswer::Received(cur) => WeatherStep::StoreWeather {
            info: weather_info_at(&place.name, &cur, fetched_at),
        },
    }
}

/// The step after asking the forecast service at `place`; a report is stamped with the
/// current local time (RFC 3339 text, or empty when the clock gives no writable time), and
/// everything else about the step is fixed by the arguments.
pub fn after_weather_fetch(place: Place, answer: HttpAnswer<CurrentConditions>) -> (r:
    WeatherStep)
    ensures
        exists|t: Seq<char>|
            stamp_or_blank(t) && r@ == #[trigger] next_after_weather_fetch(
                place@,
                conditions_view(answer),
                t,
            ),
{
    match answer {
        HttpAnswer::SendFailed(d) => {
            let r = WeatherStep::Done {
                outcome: Err(String::from_str("天气请求失败: ").concat(d.as_str())),
            };
            assert(r@ == next_after_weather_fetch(place@, conditions_view(answer), Seq::empty()));
            r
        },
        HttpAnswer::Unreadable(d) => {
            let r = WeatherStep::Done {
                outcome: Err(String::from_str("解析天气失败: ").concat(d.as_str())),
            };
            assert(r@ == next_after_weather_fetch(place@, conditions_view(answer), Seq::empty()));
            r
        },
        HttpAnswer::Received(cur) => {
            let info = weather_info(&place.name, &cur);
            let ghost t = info.fetched_at@;
            let r = WeatherStep::StoreWeather { info };
            assert(r@ == next_after_weather_fetch(place@, conditions_view(answer), t));
            r
        },
    }
}

/// The step after storing the report `info`.
pub fn after_weather_stored(info: WeatherInfo, stored: Result<(), String>) -> (r: WeatherStep)
    ensures
        r@ == next_after_weather_stored(info@, stored_view(stored)),
{
    match stored {
        Ok(()) => WeatherStep::Done { outcome: Ok(info) },
        Err(e) => WeatherStep::Done { outcome: Err(e) },
    }
}

/// Every answer brings a request strictly closer to its end, and only the end has rank 0:
/// a request for the weather ends after at most six answers, whatever they are.
pub proof fn lemma_every_answer_moves_closer()
    ensures
        forall|s: WeatherStepView| rank(s) == 0 <==> s is Done,
        forall|l: Result<Option<Seq<char>>, Seq<char>>|
            rank(#[trigger] next_after_saved_city(l)) < rank(WeatherStepView::LoadSavedCity),
        forall|city: Seq<char>, l: Result<Option<GeoCacheEntryView>, Seq<char>>|
            rank(#[trigger] next_after_geo_cache(city, l)) < rank(
                WeatherStepView::ReadGeoCache { city },
            ),
        forall|city: Seq<char>, a: HttpAnswerView<Option<Seq<PlaceView>>>|
            rank(#[trigger] next_after_city_search(city, a)) < rank(
                WeatherStepView::SearchCity { city },
            ),
        forall|city: Seq<char>, place: PlaceView|
            rank(WeatherStepView::FetchWeather { place }) < #[trigger] rank(
                WeatherStepView::WriteGeoCache { city, place },
            ),
        forall|a: HttpAnswerView<IpLocationView>|
            rank(#[trigger] next_after_ip_location(a)) < rank(WeatherStepView::LocateByIp),
        forall|place: PlaceView, a: HttpAnswerView<CurrentConditionsView>, t: Seq<char>|
            rank(#[trigger] next_after_weather_fetch(place, a, t)) < rank(
                WeatherStepView::FetchWeather { place },
            ),
        forall|info: WeatherInfoView, st: Result<(), Seq<char>>|
            rank(#[trigger] next_after_weather_stored(info, st)) < rank(
                WeatherStepView::StoreWeather { info },
            ),
{
}

/// IP location is used only when no city is set: the board's request turns to it exactly when
/// reading the saved city gave no non-empty city.
pub proof fn lemma_ip_location_only_without_city(loaded: Result<Option<Seq<char>>, Seq<char>>)
    ensures
        (next_after_saved_city(loaded) is LocateByIp) <==> !(loaded matches Ok(Some(c)) && c.len()
            > 0),
        loaded matches Ok(Some(c)) ==> (c.len() > 0 ==> next_after_saved_city(loaded) == (
        WeatherStepView::ReadGeoCache { city: c })),
{
}

/// Once a city is being placed, saved or named, the request never turns to IP location: it
/// places the city or ends with the reason it could not.
pub proof fn lemma_placing_a_city_never_uses_ip(
    city: Seq<char>,
    lookup: Result<Option<GeoCacheEntryView>, Seq<char>>,
    answer: HttpAnswerView<Option<Seq<PlaceView>>>,
)
    ensures
        !(next_after_geo_cache(city, lookup) is LocateByIp),
        !(next_after_city_search(city, answer) is LocateByIp),
{
}

/// The cache entry is used without asking the geocoder when the requested name is the one it
/// was stored for, or the name of its place.
pub proof fn lemma_cache_hit_skips_geocoding(entry: GeoCacheEntryView, city: Seq<char>)
    requires
        city == entry.city || city == entry.place.name,
    ensures
        next_after_geo_cache(city, Ok(Some(entry))) == (WeatherStepView::FetchWeather {
            place: entry.place,
        }),
{
}

/// While the city name is unchanged no new geocoding is needed: after a search for `city`
/// stores a place, reading that cache entry back for `city` gives the same place, whatever
/// name the geocoder gave it.
pub proof fn lemma_stored_place_is_read_back(
    city: Seq<char>,
    answer: HttpAnswerView<Option<Seq<PlaceView>>>,
)
    ensures
        next_after_city_search(city, answer) matches WeatherStepView::WriteGeoCache {
            city: key,
            place,
        } ==> key == city && next_after_geo_cache(
            city,
            Ok(Some(GeoCacheEntryView { city: key, place })),
        ) == (WeatherStepView::FetchWeather { place }),
{
}

/// A cache lookup that does not serve the requested name (there is no entry, or the entry was
/// stored for another name and its place bears another name) leads to a geocoder search for
/// exactly the requested name; a cache that cannot be located ends the request with its error.
pub proof fn lemma_cache_miss_searches_requested_name(
    city: Seq<char>,
    cached: Option<GeoCacheEntryView>,
    e: Seq<char>,
)
    requires
        !(cached matches Some(entry) && (entry.city == city || entry.place.name == city)),
    ensures
        next_after_geo_cache(city, Ok(cached)) == (WeatherStepView::SearchCity { city }),
        next_after_geo_cache(city, Err(e)) == (WeatherStepView::Done { outcome: Err(e) }),
{
}

/// A geocoder answer with results caches its first result for the requested name.
pub proof fn lemma_search_caches_first_result(city: Seq<char>, results: Seq<PlaceView>)
    requires
        results.len() > 0,
    ensures
        next_after_city_search(city, HttpAnswerView::Received(Some(results))) == (
        WeatherStepView::WriteGeoCache { city, place: results[0] }),
{
}

/// A geocoder answer without results, or a failed search, ends the request with the reason.
pub proof fn lemma_search_failures_end_request(city: Seq<char>, d: Seq<char>)
    ensures
        next_after_city_search(city, HttpAnswerView::Received(None)) == (WeatherStepView::Done {
            outcome: Err("未找到该城市"@),
        }),
        next_after_city_search(city, HttpAnswerView::Received(Some(Seq::empty()))) == (
        WeatherStepView::Done { outcome: Err("未找到该城市"@) }),
        next_after_city_search(city, HttpAnswerView::SendFailed(d)) == (WeatherStepView::Done {
            outcome: Err("城市搜索失败: "@ + d),
        }),
        next_after_city_search(city, HttpAnswerView::Unreadable(d)) == (WeatherStepView::Done {
            outcome: Err("解析城市失败: "@ + d),
        }),
{
}

/// A successful IP location with a city and both coordinates leads to the forecast for exactly
/// that city and those coordinates.
pub proof fn lemma_ip_location_used(name: Seq<char>, lat_bits: u64, lon_bits: u64)
    ensures
        next_after_ip_location(
            HttpAnswerView::Received(
                IpLocationView {
                    status: "success"@,
                    city: Some(name),
                    lat_bits: Some(lat_bits),
                    lon_bits: Some(lon_bits),
                },
            ),
        ) == (WeatherStepView::FetchWeather { place: PlaceView { name, lat_bits, lon_bits } }),
{
}

/// An IP location answer that is not a success, or lacks the city or a coordinate, or a
/// failed request, ends the request with the reason.
pub proof fn lemma_ip_location_failures(loc: IpLocationView, d: Seq<char>)
    ensures
        loc.status != "success"@ ==> next_after_ip_location(HttpAnswerView::Received(loc)) == (
        WeatherStepView::Done { outcome: Err("IP 定位失败"@) }),
        loc.status == "success"@ && (loc.city is None || loc.lat_bits is None
            || loc.lon_bits is None) ==> next_after_ip_location(HttpAnswerView::Received(loc))
            == (WeatherStepView::Done { outcome: Err("定位数据为空"@) }),
        next_after_ip_location(HttpAnswerView::SendFailed(d)) == (WeatherStepView::Done {
            outcome: Err("定位请求失败: "@ + d),
        }),
        next_after_ip_location(HttpAnswerView::Unreadable(d)) == (WeatherStepView::Done {
            outcome: Err("解析定位失败: "@ + d),
        }),
{
}

/// The forecast at `place` is stored as the report for the place's name stamped `t`; a
/// failed forecast request ends the request with the reason.
pub proof fn lemma_forecast_outcomes(
    place: PlaceView,
    cur: CurrentConditionsView,
    t: Seq<char>,
    d: Seq<char>,
)
    ensures
        next_after_weather_fetch(place, HttpAnswerView::Received(cur), t) == (
        WeatherStepView::StoreWeather { info: report(place.name, cur, t) }),
        next_after_weather_fetch(place, HttpAnswerView::SendFailed(d), t) == (
        WeatherStepView::Done { outcome: Err("天气请求失败: "@ + d) }),
        next_after_weather_fetch(place, HttpAnswerView::Unreadable(d), t) == (
        WeatherStepView::Done { outcome: Err("解析天气失败: "@ + d) }),
{
}

/// Once the report is stored the request ends with exactly that report; a failure to store
/// it ends the request with that failure.
pub proof fn lemma_stored_report_is_returned(info: WeatherInfoView, e: Seq<char>)
    ensures
        next_after_weather_stored(info, Ok(())) == (WeatherStepView::Done { outcome: Ok(info) }),
        next_after_weather_stored(info, Err(e)) == (WeatherStepView::Done { outcome: Err(e) }),
{
}

} // verus!
