//! The weather report model of the top bar: the answer of the wttr.in
//! service, held as plain strings, with verified accessors, the icon
//! table for the wwo condition codes, and the colour scale of the UV
//! index.
//!
//! The report's numeric fields arrive as decimal strings and its times
//! as 12-hour or military clock strings; the accessors that read them
//! require the shapes under which the readings are defined, exactly
//! those on which the service's answers are well-formed.

use vstd::prelude::*;

use crate::clock::{
    is_date_str, is_military_time, is_night, is_time_12h, date_value, military_time_value,
    parse_date, parse_military_time, parse_time_12h, spec_is_night, time_12h_value, Date,
    TimeOfDay,
};
use crate::text::{dec_val, is_dec_str, parse_u8, spec_trim, str_eq, trim_spaces};

use chrono::Timelike;

verus! {

/// The unit temperatures are displayed in.
#[derive(Clone, Copy, PartialEq, Eq, Structural, Debug)]
pub enum TemperatureUnit {
    Celsius,
    Fahrenheit,
}

impl TemperatureUnit {
    /// The unit the metric-units preference selects.
    pub fn from_metric(use_metric: bool) -> (r: TemperatureUnit)
        ensures
            r == if use_metric {
                TemperatureUnit::Celsius
            } else {
                TemperatureUnit::Fahrenheit
            },
    {
        if use_metric {
            TemperatureUnit::Celsius
        } else {
            TemperatureUnit::Fahrenheit
        }
    }
}

/// One textual description of a condition.
#[derive(Clone, Debug)]
pub struct WeatherDesc {
    pub value: String,
}

/// What the service understood the queried location to be.
#[derive(Clone, Debug)]
pub struct Request {
    pub query: String,
    pub request_type: String,
}

/// Sun and moon times of one day, as 12-hour clock strings.
#[derive(Clone, Debug)]
pub struct Astronomy {
    pub moon_illumination: String,
    pub moon_phase: String,
    pub moonrise: String,
    pub moonset: String,
    pub sunrise: String,
    pub sunset: String,
}

/// The condition at observation time.
#[derive(Clone, Debug)]
pub struct CurrentCondition {
    pub feels_like_c: String,
    pub temp_c: String,
    pub temp_f: String,
    pub humidity: String,
    pub cloud_cover: String,
    pub uv_index: String,
    pub weather_code: String,
    pub weather_desc: Vec<WeatherDesc>,
}

/// One hour of a day's forecast.
#[derive(Clone, Debug)]
pub struct Hourly {
    pub temp_c: String,
    pub temp_f: String,
    pub humidity: String,
    pub cloud_cover: String,
    pub uv_index: String,
    pub time: String,
    pub weather_code: String,
    pub weather_desc: Vec<WeatherDesc>,
}

/// One day of the forecast.
#[derive(Clone, Debug)]
pub struct Weather {
    pub astronomy: Vec<Astronomy>,
    pub date: String,
    pub hourly: Vec<Hourly>,
}

/// A whole report: the current condition, the query echo, and one
/// entry per forecast day, today first.
#[derive(Clone, Debug)]
pub struct Wttr {
    pub current_condition: Vec<CurrentCondition>,
    pub request: Vec<Request>,
    pub weather: Vec<Weather>,
}

impl CurrentCondition {
    /// The temperature in the asked unit, suffixed with that unit.
    pub fn temperature(&self, unit: TemperatureUnit) -> (r: String)
        ensures
            unit is Celsius ==> r@ == self.temp_c@ + "\u{b0}C"@,
            unit is Fahrenheit ==> r@ == self.temp_f@ + "\u{b0}F"@,
    {
        match unit {
            TemperatureUnit::Celsius => self.temp_c.clone().concat("\u{b0}C"),
            TemperatureUnit::Fahrenheit => self.temp_f.clone().concat("\u{b0}F"),
        }
    }

    /// The relative humidity, as the percentage string the report
    /// carries.
    pub fn humidity(&self) -> (r: &str)
        ensures
            r@ == self.humidity@,
    {
        self.humidity.as_str()
    }

    /// The cloud cover percentage.
    pub fn cloud_cover(&self) -> (r: u8)
        requires
            is_dec_str(self.cloud_cover@),
            dec_val(self.cloud_cover@) <= 255,
        ensures
            r == dec_val(self.cloud_cover@),
    {
        parse_u8(self.cloud_cover.as_str()).unwrap()
    }

    /// The UV index.
    pub fn uv_index(&self) -> (r: u8)
        requires
            is_dec_str(self.uv_index@),
            dec_val(self.uv_index@) <= 255,
        ensures
            r == dec_val(self.uv_index@),
    {
        parse_u8(self.uv_index.as_str()).unwrap()
    }

    /// The first textual description of the condition.
    pub fn desc(&self) -> (r: &str)
        requires
            self.weather_desc@.len() >= 1,
        ensures
            r@ == self.weather_desc@[0].value@,
    {
        self.weather_desc[0].value.as_str()
    }
}

impl Hourly {
    /// The temperature in the asked unit, suffixed with that unit.
    pub fn temperature(&self, unit: TemperatureUnit) -> (r: String)
        ensures
            unit is Celsius ==> r@ == self.temp_c@ + "\u{b0}C"@,
            unit is Fahrenheit ==> r@ == self.temp_f@ + "\u{b0}F"@,
    {
        match unit {
            TemperatureUnit::Celsius => self.temp_c.clone().concat("\u{b0}C"),
            TemperatureUnit::Fahrenheit => self.temp_f.clone().concat("\u{b0}F"),
        }
    }

    /// The relative humidity, as the percentage string the report
    /// carries.
    pub fn humidity(&self) -> (r: &str)
        ensures
            r@ == self.humidity@,
    {
        self.humidity.as_str()
    }

    /// The cloud cover percentage.
    pub fn cloud_cover(&self) -> (r: u8)
        requires
            is_dec_str(self.cloud_cover@),
            dec_val(self.cloud_cover@) <= 255,
        ensures
            r == dec_val(self.cloud_cover@),
    {
        parse_u8(self.cloud_cover.as_str()).unwrap()
    }

    /// The UV index.
    pub fn uv_index(&self) -> (r: u8)
        requires
            is_dec_str(self.uv_index@),
            dec_val(self.uv_index@) <= 255,
        ensures
            r == dec_val(self.uv_index@),
    {
        parse_u8(self.uv_index.as_str()).unwrap()
    }

    /// The first textual description of the hour, with the whitespace
    /// the service pads it with removed from both ends.
    pub fn desc(&self) -> (r: &str)
        requires
            self.weather_desc@.len() >= 1,
        ensures
            r@ == spec_trim(self.weather_desc@[0].value@),
    {
        trim_spaces(self.weather_desc[0].value.as_str())
    }

    /// The hour's time as the military-style string the report
    /// carries: "0" is midnight, "300" is 3:00, "1200" is noon.
    pub fn time_str(&self) -> (r: &str)
        ensures
            r@ == self.time@,
    {
        self.time.as_str()
    }

    /// The hour's time of day.
    pub fn time(&self) -> (r: TimeOfDay)
        requires
            is_military_time(self.time@),
        ensures
            r == military_time_value(self.time@),
            r.wf(),
    {
        parse_military_time(self.time.as_str()).unwrap()
    }

    /// The icon for this hour of the forecast day it belongs to:
    /// night icons apply before the day's sunrise and after its
    /// sunset.
    pub fn icon<'a>(&'a self, weather: &Weather) -> (r: Result<&'a str, &'a str>)
        requires
            weather.astronomy@.len() >= 1,
            is_time_12h(weather.astronomy@[0].sunrise@),
            is_time_12h(weather.astronomy@[0].sunset@),
            is_military_time(self.time@),
        ensures
            ({
                let night = spec_is_night(
                    military_time_value(self.time@),
                    time_12h_value(weather.astronomy@[0].sunrise@),
                    time_12h_value(weather.astronomy@[0].sunset@),
                );
                &&& icon_for_code(self.weather_code@, night) matches Some(i) ==> (r matches Ok(s)
                    && s@ == i)
                &&& icon_for_code(self.weather_code@, night) is None ==> (r matches Err(e) && e@
                    == self.weather_code@)
            }),
    {
        let sunrise = parse_time_12h(weather.astronomy[0].sunrise.as_str()).unwrap();
        let sunset = parse_time_12h(weather.astronomy[0].sunset.as_str()).unwrap();
        let time = self.time();
        let night = is_night(time, sunrise, sunset);
        weather_icon_from_wwo_code(self.weather_code.as_str(), night)
    }
}

impl Weather {
    /// The hours of this forecast day.
    pub fn hourly(&self) -> (r: &[Hourly])
        ensures
            r@ == self.hourly@,
    {
        self.hourly.as_slice()
    }

    /// The description of the day: its first hour's first description.
    pub fn desc(&self) -> (r: &str)
        requires
            self.hourly@.len() >= 1,
            self.hourly@[0].weather_desc@.len() >= 1,
        ensures
            r@ == self.hourly@[0].weather_desc@[0].value@,
    {
        self.hourly[0].weather_desc[0].value.as_str()
    }

    /// The day icon for this forecast day, from its first hour's
    /// condition code.
    pub fn icon<'a>(&'a self) -> (r: Result<&'a str, &'a str>)
        requires
            self.hourly@.len() >= 1,
        ensures
            icon_for_code(self.hourly@[0].weather_code@, false) matches Some(i) ==> (r matches Ok(
                s,
            ) && s@ == i),
            icon_for_code(self.hourly@[0].weather_code@, false) is None ==> (r matches Err(e) && e@
                == self.hourly@[0].weather_code@),
    {
        weather_icon_from_wwo_code(self.hourly[0].weather_code.as_str(), false)
    }

    /// The day's date.
    pub fn date(&self) -> (r: Date)
        requires
            is_date_str(self.date@),
        ensures
            r == date_value(self.date@),
            r.wf(),
    {
        parse_date(self.date.as_str()).unwrap()
    }
}

impl Wttr {
    /// The current condition: the report's single entry.
    pub fn current_condition(&self) -> (r: &CurrentCondition)
        requires
            self.current_condition@.len() >= 1,
        ensures
            *r == self.current_condition@[0],
    {
        &self.current_condition[0]
    }

    /// The query echo: the report's single entry.
    pub fn request(&self) -> (r: &Request)
        requires
            self.request@.len() >= 1,
        ensures
            *r == self.request@[0],
    {
        &self.request[0]
    }

    /// All forecast days, today first.
    pub fn weather(&self) -> (r: &[Weather])
        ensures
            r@ == self.weather@,
    {
        self.weather.as_slice()
    }

    /// Today's forecast day.
    pub fn today_weather(&self) -> (r: &Weather)
        requires
            self.weather@.len() >= 1,
        ensures
            *r == self.weather@[0],
    {
        &self.weather[0]
    }

    /// The icon for the current condition, read against the wall
    /// clock: night icons apply before today's sunrise and after its
    /// sunset.  Whatever the clock reads, the result is the icon table
    /// applied to the current condition's code, by day or by night.
    pub fn weather_icon<'a>(&'a self) -> (r: Result<&'a str, &'a str>)
        requires
            self.current_condition@.len() >= 1,
            self.weather@.len() >= 1,
            self.weather@[0].astronomy@.len() >= 1,
            is_time_12h(self.weather@[0].astronomy@[0].sunrise@),
            is_time_12h(self.weather@[0].astronomy@[0].sunset@),
        ensures
            ({
                let code = self.current_condition@[0].weather_code@;
                ||| (icon_for_code(code, true) matches Some(i) && (r matches Ok(s) && s@ == i))
                ||| (icon_for_code(code, true) is None && (r matches Err(e) && e@ == code))
                ||| (icon_for_code(code, false) matches Some(i) && (r matches Ok(s) && s@ == i))
                ||| (icon_for_code(code, false) is None && (r matches Err(e) && e@ == code))
            }),
    {
        let today = &self.weather[0];
        let sunrise = parse_time_12h(today.astronomy[0].sunrise.as_str()).unwrap();
        let sunset = parse_time_12h(today.astronomy[0].sunset.as_str()).unwrap();
        let now = local_time_of_day();
        let night = is_night(now, sunrise, sunset);
        weather_icon_from_wwo_code(self.current_condition[0].weather_code.as_str(), night)
    }
}

/// Relies on chrono::Local::now and chrono::Timelike: a wall-clock
/// reading always has its hour below 24 and its minute and second
/// below 60.  Nothing else is assumed of it: callers hold for every
/// reading.
#[verifier::external_body]
fn local_time_of_day() -> (t: TimeOfDay)
    ensures
        t.wf(),
{
    let now = chrono::Local::now().time();
    TimeOfDay { hour: now.hour() as u8, minute: now.minute() as u8, second: now.second() as u8 }
}

/// The condition codes shown as plain clouds.
pub open spec fn is_clouds_code(c: Seq<char>) -> bool {
    c == "119"@ || c == "122"@
}

/// The condition codes shown as fog.
pub open spec fn is_fog_code(c: Seq<char>) -> bool {
    c == "143"@ || c == "248"@ || c == "260"@
}

/// The condition codes shown as rain.
pub open spec fn is_rain_code(c: Seq<char>) -> bool {
    ||| c == "176"@
    ||| c == "182"@
    ||| c == "185"@
    ||| c == "263"@
    ||| c == "266"@
    ||| c == "281"@
    ||| c == "284"@
    ||| c == "293"@
    ||| c == "296"@
    ||| c == "299"@
    ||| c == "302"@
    ||| c == "305"@
    ||| c == "308"@
    ||| c == "311"@
    ||| c == "314"@
    ||| c == "353"@
    ||| c == "356"@
    ||| c == "359"@
}

/// The condition codes shown as snow.
pub open spec fn is_snow_code(c: Seq<char>) -> bool {
    ||| c == "179"@
    ||| c == "227"@
    ||| c == "230"@
    ||| c == "317"@
    ||| c == "320"@
    ||| c == "323"@
    ||| c == "326"@
    ||| c == "329"@
    ||| c == "332"@
    ||| c == "335"@
    ||| c == "338"@
    ||| c == "350"@
    ||| c == "362"@
    ||| c == "365"@
    ||| c == "368"@
    ||| c == "371"@
    ||| c == "374"@
    ||| c == "377"@
}

/// The condition codes shown as a storm.
pub open spec fn is_storm_code(c: Seq<char>) -> bool {
    c == "200"@ || c == "386"@ || c == "389"@ || c == "392"@ || c == "395"@
}

/// The icon a wwo condition code maps to, or `None` for a code the
/// table does not know.  Clear sky and scattered clouds have a night
/// variant.
pub open spec fn icon_for_code(code: Seq<char>, night: bool) -> Option<Seq<char>> {
    if code == "113"@ {
        Some(
            if night {
                "moon-outline-symbolic"@
            } else {
                "sun-outline-symbolic"@
            },
        )
    } else if code == "116"@ {
        Some(
            if night {
                "moon-clouds-outline-symbolic"@
            } else {
                "few-clouds-outline-symbolic"@
            },
        )
    } else if is_clouds_code(code) {
        Some("clouds-outline-symbolic"@)
    } else if is_fog_code(code) {
        Some("fog-symbolic"@)
    } else if is_rain_code(code) {
        Some("rain-symbolic"@)
    } else if is_snow_code(code) {
        Some("snow-symbolic"@)
    } else if is_storm_code(code) {
        Some("storm-outline-symbolic"@)
    } else {
        None
    }
}

/// Maps a wwo condition code to its icon name, with night variants
/// where the table has them.  A code outside the table comes back as
/// the error, for the caller to log.
pub fn weather_icon_from_wwo_code<'a>(code: &'a str, night: bool) -> (r: Result<&'a str, &'a str>)
    ensures
        icon_for_code(code@, night) matches Some(i) ==> (r matches Ok(s) && s@ == i),
        icon_for_code(code@, night) is None ==> (r matches Err(e) && e@ == code@),
{
    if str_eq(code, "113") {
        Ok(
            if night {
                "moon-outline-symbolic"
            } else {
                "sun-outline-symbolic"
            },
        )
    } else if str_eq(code, "116") {
        Ok(
            if night {
                "moon-clouds-outline-symbolic"
            } else {
                "few-clouds-outline-symbolic"
            },
        )
    } else if str_eq(code, "119") || str_eq(code, "122") {
        Ok("clouds-outline-symbolic")
    } else if str_eq(code, "143") || str_eq(code, "248") || str_eq(code, "260") {
        Ok("fog-symbolic")
    } else if str_eq(code, "176") || str_eq(code, "182") || str_eq(code, "185") || str_eq(
        code,
        "263",
    ) || str_eq(code, "266") || str_eq(code, "281") || str_eq(code, "284") || str_eq(code, "293")
        || str_eq(code, "296") || str_eq(code, "299") || str_eq(code, "302") || str_eq(code, "305")
        || str_eq(code, "308") || str_eq(code, "311") || str_eq(code, "314") || str_eq(code, "353")
        || str_eq(code, "356") || str_eq(code, "359") {
        Ok("rain-symbolic")
    } else if str_eq(code, "179") || str_eq(code, "227") || str_eq(code, "230") || str_eq(
        code,
        "317",
    ) || str_eq(code, "320") || str_eq(code, "323") || str_eq(code, "326") || str_eq(code, "329")
        || str_eq(code, "332") || str_eq(code, "335") || str_eq(code, "338") || str_eq(code, "350")
        || str_eq(code, "362") || str_eq(code, "365") || str_eq(code, "368") || str_eq(code, "371")
        || str_eq(code, "374") || str_eq(code, "377") {
        Ok("snow-symbolic")
    } else if str_eq(code, "200") || str_eq(code, "386") || str_eq(code, "389") || str_eq(
        code,
        "392",
    ) || str_eq(code, "395") {
        Ok("storm-outline-symbolic")
    } else {
        Err(code)
    }
}

/// The colour scale of the UV index.
pub open spec fn spec_uv_index_color(uv: int) -> Seq<char> {
    if uv <= 2 {
        "green"@
    } else if uv <= 5 {
        "yellow"@
    } else if uv <= 7 {
        "orange"@
    } else if uv <= 10 {
        "red"@
    } else if uv <= 12 {
        "purple"@
    } else {
        "black"@
    }
}

/// The colour the UV index is rendered in.
pub fn uv_index_color(uv: u8) -> (r: &'static str)
    ensures
        r@ == spec_uv_index_color(uv as int),
{
    if uv <= 2 {
        "green"
    } else if uv <= 5 {
        "yellow"
    } else if uv <= 7 {
        "orange"
    } else if uv <= 10 {
        "red"
    } else if uv <= 12 {
        "purple"
    } else {
        "black"
    }
}

} // verus!
