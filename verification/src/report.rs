//! The weather report shown on the board, built from the current conditions.
use vstd::prelude::*;

use crate::clock::{now_rfc3339, stamp_or_blank};
use crate::geo::opt_chars;
use crate::text::{decimal, decimal_string};
use crate::weather_code::{wmo_label, wmo_text};

verus! {

/// The current conditions as the forecast service reported them. Quantities the service
/// gives as floating-point numbers arrive already written out: the temperature rounded to a
/// whole degree (absent when the service left it out) and the wind as its strength label and
/// its speed rounded to a whole km/h.
pub struct CurrentConditions {
    pub temperature: Option<String>,
    pub weather_code: Option<i32>,
    pub wind_label: String,
    pub wind_speed: String,
    pub relative_humidity: Option<i64>,
}

/// The mathematical value of [`CurrentConditions`].
pub struct CurrentConditionsView {
    pub temperature: Option<Seq<char>>,
    pub weather_code: Option<i32>,
    pub wind_label: Seq<char>,
    pub wind_speed: Seq<char>,
    pub relative_humidity: Option<i64>,
}

impl View for CurrentConditions {
    type V = CurrentConditionsView;

    open spec fn view(&self) -> CurrentConditionsView {
        CurrentConditionsView {
            temperature: opt_chars(self.temperature),
            weather_code: self.weather_code,
            wind_label: self.wind_label@,
            wind_speed: self.wind_speed@,
            relative_humidity: self.relative_humidity,
        }
    }
}

/// The weather report handed to the board and kept as the last known weather.
pub struct WeatherInfo {
    pub city: String,
    pub temp: String,
    pub text: String,
    pub code: i32,
    pub wind: String,
    pub humidity: String,
    pub fetched_at: String,
}

/// The mathematical value of a [`WeatherInfo`].
pub struct WeatherInfoView {
    pub city: Seq<char>,
    pub temp: Seq<char>,
    pub text: Seq<char>,
    pub code: i32,
    pub wind: Seq<char>,
    pub humidity: Seq<char>,
    pub fetched_at: Seq<char>,
}

impl View for WeatherInfo {
    type V = WeatherInfoView;

    open spec fn view(&self) -> WeatherInfoView {
        WeatherInfoView {
            city: self.city@,
            temp: self.temp@,
            text: self.text@,
            code: self.code,
            wind: self.wind@,
            humidity: self.humidity@,
            fetched_at: self.fetched_at@,
        }
    }
}

impl WeatherInfo {
    /// A copy of the report.
    pub fn duplicate(&self) -> (r: WeatherInfo)
        ensures
            r@ == self@,
    {
        WeatherInfo {
            city: self.city.clone(),
            temp: self.temp.clone(),
            text: self.text.clone(),
            code: self.code,
            wind: self.wind.clone(),
            humidity: self.humidity.clone(),
            fetched_at: self.fetched_at.clone(),
        }
    }
}

/// The report for `city` under the conditions `cur`, stamped `fetched_at`: a missing
/// temperature reads `--`, a missing weather code counts as 0 (clear), a missing humidity as
/// 0 %, and the wind reads as its label, a space, its speed and `km/h`.
pub open spec fn report(
    city: Seq<char>,
    cur: CurrentConditionsView,
    fetched_at: Seq<char>,
) -> WeatherInfoView {
    let code: i32 = match cur.weather_code {
        Some(c) => c,
        None => 0,
    };
    let humidity: i64 = match cur.relative_humidity {
        Some(h) => h,
        None => 0,
    };
    WeatherInfoView {
        city,
        temp: match cur.temperature {
            Some(t) => t,
            None => "--"@,
        },
        text: wmo_label(code),
        code,
        wind: cur.wind_label + " "@ + cur.wind_speed + "km/h"@,
        humidity: decimal(humidity as int) + "%"@,
        fetched_at,
    }
}

/// The report for `city` under the conditions `cur`, stamped with the time `fetched_at`.
pub fn weather_info_at(city: &String, cur: &CurrentConditions, fetched_at: String) -> (r:
    WeatherInfo)
    ensures
        r@ == report(city@, cur@, fetched_at@),
{
    let code: i32 = match cur.weather_code {
        Some(c) => c,
        None => 0,
    };
    let humidity: i64 = match cur.relative_humidity {
        Some(h) => h,
        None => 0,
    };
    let temp = match &cur.temperature {
        Some(t) => t.clone(),
        None => String::from_str("--"),
    };
    let text = String::from_str(wmo_text(code));
    let wind = cur.wind_label.clone().concat(" ").concat(cur.wind_speed.as_str()).concat("km/h");
    let humidity_text = decimal_string(humidity).concat("%");
    WeatherInfo {
        city: city.clone(),
        temp,
        text,
        code,
        wind,
        humidity: humidity_text,
        fetched_at,
    }
}

/// The report for `city` under the conditions `cur`, stamped with the current local time as
/// RFC 3339 text, or with an empty stamp (as a report without a time reads) when the clock
/// reads a time outside the years 1 to 9999. Every field but the time stamp is fixed by the
/// arguments.
pub fn weather_info(city: &String, cur: &CurrentConditions) -> (r: WeatherInfo)
    ensures
        r@ == report(city@, cur@, r.fetched_at@),
        stamp_or_blank(r.fetched_at@),
{
    let now = match now_rfc3339() {
        Some(t) => t,
        None => String::new(),
    };
    weather_info_at(city, cur, now)
}

/// The report for `city` at time `t` names that city and time; shows the temperature text
/// that came, or `--`; carries the weather code that came, or 0 (clear), with that code's
/// label; reads the wind as its label, a space, its speed and `km/h`; and writes the humidity
/// that came, or 0, in decimal followed by `%`.
pub proof fn lemma_report_fields(city: Seq<char>, cur: CurrentConditionsView, t: Seq<char>)
    ensures
        report(city, cur, t).city == city,
        report(city, cur, t).fetched_at == t,
        cur.temperature matches Some(x) ==> report(city, cur, t).temp == x,
        cur.temperature is None ==> report(city, cur, t).temp == "--"@,
        cur.weather_code matches Some(c) ==> report(city, cur, t).code == c && report(
            city,
            cur,
            t,
        ).text == wmo_label(c),
        cur.weather_code is None ==> report(city, cur, t).code == 0 && report(city, cur, t).text
            == "晴"@,
        report(city, cur, t).wind == cur.wind_label + " "@ + cur.wind_speed + "km/h"@,
        cur.relative_humidity matches Some(h) ==> report(city, cur, t).humidity == decimal(
            h as int,
        ) + "%"@,
        cur.relative_humidity is None ==> report(city, cur, t).humidity == "0%"@,
{
    reveal_strlit("0%");
    reveal_strlit("%");
    assert(decimal(0) + "%"@ =~= "0%"@);
}

} // verus!
