//! Places: the coordinate cache, geocoding answers and IP location answers.
//!
//! A coordinate is carried as the bit pattern of its `f64` (`f64::to_bits`); the library
//! never reads it as a number, it only hands it on unchanged.
use vstd::prelude::*;

verus! {

/// A named place and its coordinates, each the bit pattern of an `f64`.
pub struct Place {
    pub name: String,
    pub lat_bits: u64,
    pub lon_bits: u64,
}

/// The mathematical value of a [`Place`].
pub struct PlaceView {
    pub name: Seq<char>,
    pub lat_bits: u64,
    pub lon_bits: u64,
}

impl View for Place {
    type V = PlaceView;

    open spec fn view(&self) -> PlaceView {
        PlaceView { name: self.name@, lat_bits: self.lat_bits, lon_bits: self.lon_bits }
    }
}

/// What the IP location service answered: a status word and the fields it filled in.
pub struct IpLocation {
    pub status: String,
    pub city: Option<String>,
    pub lat_bits: Option<u64>,
    pub lon_bits: Option<u64>,
}

/// The mathematical value of an [`IpLocation`].
pub struct IpLocationView {
    pub status: Seq<char>,
    pub city: Option<Seq<char>>,
    pub lat_bits: Option<u64>,
    pub lon_bits: Option<u64>,
}

/// The view of an optional string.
pub open spec fn opt_chars(o: Option<String>) -> Option<Seq<char>> {
    match o {
        Some(s) => Some(s@),
        None => None,
    }
}

impl View for IpLocation {
    type V = IpLocationView;

    open spec fn view(&self) -> IpLocationView {
        IpLocationView {
            status: self.status@,
            city: opt_chars(self.city),
            lat_bits: self.lat_bits,
            lon_bits: self.lon_bits,
        }
    }
}

/// The view of an optional place.
pub open spec fn opt_place(o: Option<Place>) -> Option<PlaceView> {
    match o {
        Some(p) => Some(p@),
        None => None,
    }
}

/// The views of a list of places.
pub open spec fn place_views(v: Seq<Place>) -> Seq<PlaceView> {
    v.map_values(|p: Place| p@)
}

/// The view of an optional list of places.
pub open spec fn opt_places(o: Option<Vec<Place>>) -> Option<Seq<PlaceView>> {
    match o {
        Some(v) => Some(place_views(v@)),
        None => None,
    }
}

/// The message when the geocoder finds no place of the name.
pub open spec fn city_not_found_msg() -> Seq<char> {
    "未找到该城市"@
}

/// The message when the IP location service reports a failure.
pub open spec fn ip_failed_msg() -> Seq<char> {
    "IP 定位失败"@
}

/// The message when the IP location answer lacks the city or a coordinate.
pub open spec fn location_empty_msg() -> Seq<char> {
    "定位数据为空"@
}

/// The status word of a successful IP location answer.
pub open spec fn success_word() -> Seq<char> {
    "success"@
}

/// The coordinate cache's one entry: the city name that was asked for, and the place the
/// geocoder found for it.
pub struct GeoCacheEntry {
    pub city: String,
    pub place: Place,
}

/// The mathematical value of a [`GeoCacheEntry`].
pub struct GeoCacheEntryView {
    pub city: Seq<char>,
    pub place: PlaceView,
}

impl View for GeoCacheEntry {
    type V = GeoCacheEntryView;

    open spec fn view(&self) -> GeoCacheEntryView {
        GeoCacheEntryView { city: self.city@, place: self.place@ }
    }
}

/// The view of an optional cache entry.
pub open spec fn opt_entry(o: Option<GeoCacheEntry>) -> Option<GeoCacheEntryView> {
    match o {
        Some(e) => Some(e@),
        None => None,
    }
}

/// The cache serves a request for `city` exactly when its entry was stored for that name or
/// its place bears that name; it then gives the stored place.
pub open spec fn cache_serves(cached: Option<GeoCacheEntryView>, city: Seq<char>) -> Option<
    PlaceView,
> {
    match cached {
        Some(e) => if e.city == city || e.place.name == city {
            Some(e.place)
        } else {
            None
        },
        None => None,
    }
}

/// The place that a geocoding answer yields: its first result, if any.
pub open spec fn first_result(results: Option<Seq<PlaceView>>) -> Option<PlaceView> {
    match results {
        Some(s) => if s.len() > 0 {
            Some(s[0])
        } else {
            None
        },
        None => None,
    }
}

/// The place that an IP location answer yields, or the message of why it yields none.
pub open spec fn located_place(loc: IpLocationView) -> Result<PlaceView, Seq<char>> {
    if loc.status != success_word() {
        Err(ip_failed_msg())
    } else {
        match (loc.city, loc.lat_bits, loc.lon_bits) {
            (Some(name), Some(lat_bits), Some(lon_bits)) => Ok(
                PlaceView { name, lat_bits, lon_bits },
            ),
            _ => Err(location_empty_msg()),
        }
    }
}

/// The cached place, if the entry was stored for the name `city` or its place bears that name.
pub fn cached_place(cached: Option<GeoCacheEntry>, city: &String) -> (r: Option<Place>)
    ensures
        opt_place(r) == cache_serves(opt_entry(cached), city@),
{
    match cached {
        Some(e) => {
            if e.city == *city || e.place.name == *city {
                Some(e.place)
            } else {
                None
            }
        },
        None => None,
    }
}

/// The first place of a geocoding answer, if it has one.
pub fn first_place(results: Option<Vec<Place>>) -> (r: Option<Place>)
    ensures
        opt_place(r) == first_result(opt_places(results)),
{
    match results {
        Some(v) => {
            let mut v = v;
            if v.len() > 0 {
                let ghost before = v@;
                let p = v.remove(0);
                assert(place_views(before)[0] == p@);
                Some(p)
            } else {
                None
            }
        },
        None => None,
    }
}

/// The message when the geocoder finds no place of the name.
pub fn city_not_found() -> (r: String)
    ensures
        r@ == city_not_found_msg(),
{
    String::from_str("未找到该城市")
}

/// The place of an IP location answer: its city and coordinates when the status is
/// `success` and all three are present.
pub fn place_from_ip(loc: IpLocation) -> (r: Result<Place, String>)
    ensures
        match (r, located_place(loc@)) {
            (Ok(p), Ok(q)) => p@ == q,
            (Err(m), Err(n)) => m@ == n,
            _ => false,
        },
{
    let success = String::from_str("success");
    if !(loc.status == success) {
        return Err(String::from_str("IP 定位失败"));
    }
    match (loc.city, loc.lat_bits, loc.lon_bits) {
        (Some(name), Some(lat_bits), Some(lon_bits)) => Ok(Place { name, lat_bits, lon_bits }),
        _ => Err(String::from_str("定位数据为空")),
    }
}

} // verus!
