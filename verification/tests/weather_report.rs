use shellctl::clock::{parse_date, parse_military_time, parse_time_12h, Date, TimeOfDay};
use shellctl::text::{parse_u8, trim_spaces};
use shellctl::weather::{
    uv_index_color, weather_icon_from_wwo_code, Astronomy, CurrentCondition, Hourly,
    TemperatureUnit, Weather, WeatherDesc, Wttr,
};

fn desc(value: &str) -> WeatherDesc {
    WeatherDesc { value: String::from(value) }
}

fn astronomy(sunrise: &str, sunset: &str) -> Astronomy {
    Astronomy {
        moon_illumination: String::from("50"),
        moon_phase: String::from("First Quarter"),
        moonrise: String::from("11:30 AM"),
        moonset: String::from("10:45 PM"),
        sunrise: String::from(sunrise),
        sunset: String::from(sunset),
    }
}

fn hourly(time: &str, code: &str) -> Hourly {
    Hourly {
        temp_c: String::from("11"),
        temp_f: String::from("52"),
        humidity: String::from("81"),
        cloud_cover: String::from("25"),
        uv_index: String::from("3"),
        time: String::from(time),
        weather_code: String::from(code),
        weather_desc: vec![desc("  Patchy rain nearby ")],
    }
}

fn sample_weather() -> Weather {
    Weather {
        astronomy: vec![astronomy("06:59 AM", "05:45 PM")],
        date: String::from("2024-02-29"),
        hourly: vec![hourly("0", "176"), hourly("300", "113")],
    }
}

fn sample_report() -> Wttr {
    Wttr {
        current_condition: vec![CurrentCondition {
            feels_like_c: String::from("10"),
            temp_c: String::from("12"),
            temp_f: String::from("54"),
            humidity: String::from("71"),
            cloud_cover: String::from("100"),
            uv_index: String::from("4"),
            weather_code: String::from("122"),
            weather_desc: vec![desc("Overcast")],
        }],
        request: vec![shellctl::weather::Request {
            query: String::from("Lat 51.51 and Lon -0.13"),
            request_type: String::from("LatLon"),
        }],
        weather: vec![sample_weather()],
    }
}

#[test]
fn current_condition_accessors() {
    let report = sample_report();
    let cc = report.current_condition();
    assert_eq!(cc.temperature(TemperatureUnit::Celsius), "12\u{b0}C");
    assert_eq!(cc.temperature(TemperatureUnit::Fahrenheit), "54\u{b0}F");
    assert_eq!(cc.humidity(), "71");
    assert_eq!(cc.cloud_cover(), 100);
    assert_eq!(cc.uv_index(), 4);
    assert_eq!(cc.desc(), "Overcast");
}

#[test]
fn report_structure_accessors() {
    let report = sample_report();
    assert_eq!(report.request().query, "Lat 51.51 and Lon -0.13");
    assert_eq!(report.weather().len(), 1);
    assert_eq!(report.today_weather().date, "2024-02-29");
}

#[test]
fn hourly_accessors() {
    let day = sample_weather();
    let hour = &day.hourly()[0];
    assert_eq!(hour.temperature(TemperatureUnit::Celsius), "11\u{b0}C");
    assert_eq!(hour.temperature(TemperatureUnit::Fahrenheit), "52\u{b0}F");
    assert_eq!(hour.humidity(), "81");
    assert_eq!(hour.cloud_cover(), 25);
    assert_eq!(hour.uv_index(), 3);
    assert_eq!(hour.desc(), "Patchy rain nearby");
    assert_eq!(hour.time_str(), "0");
    assert_eq!(hour.time(), TimeOfDay { hour: 0, minute: 0, second: 0 });
}

#[test]
fn weather_day_accessors() {
    let day = sample_weather();
    assert_eq!(day.desc(), "  Patchy rain nearby ");
    assert_eq!(day.icon(), Ok("rain-symbolic"));
    assert_eq!(day.date(), Date { year: 2024, month: 2, day: 29 });
}

#[test]
fn hourly_icon_day_and_night() {
    let day = sample_weather();
    // Midnight is before sunrise: the night variant of clear sky.
    let night_hour = hourly("0", "113");
    assert_eq!(night_hour.icon(&day), Ok("moon-outline-symbolic"));
    // Noon is between sunrise and sunset: the day variant.
    let noon_hour = hourly("1200", "113");
    assert_eq!(noon_hour.icon(&day), Ok("sun-outline-symbolic"));
    // Late evening is after sunset.
    let evening_hour = hourly("2100", "116");
    assert_eq!(evening_hour.icon(&day), Ok("moon-clouds-outline-symbolic"));
}

#[test]
fn icon_table_groups() {
    assert_eq!(weather_icon_from_wwo_code("113", false), Ok("sun-outline-symbolic"));
    assert_eq!(weather_icon_from_wwo_code("113", true), Ok("moon-outline-symbolic"));
    assert_eq!(weather_icon_from_wwo_code("116", false), Ok("few-clouds-outline-symbolic"));
    assert_eq!(weather_icon_from_wwo_code("116", true), Ok("moon-clouds-outline-symbolic"));
    assert_eq!(weather_icon_from_wwo_code("119", false), Ok("clouds-outline-symbolic"));
    assert_eq!(weather_icon_from_wwo_code("122", true), Ok("clouds-outline-symbolic"));
    assert_eq!(weather_icon_from_wwo_code("143", false), Ok("fog-symbolic"));
    assert_eq!(weather_icon_from_wwo_code("248", true), Ok("fog-symbolic"));
    assert_eq!(weather_icon_from_wwo_code("260", false), Ok("fog-symbolic"));
    for code in [
        "176", "182", "185", "263", "266", "281", "284", "293", "296", "299", "302", "305",
        "308", "311", "314", "353", "356", "359",
    ] {
        assert_eq!(weather_icon_from_wwo_code(code, false), Ok("rain-symbolic"));
    }
    for code in [
        "179", "227", "230", "317", "320", "323", "326", "329", "332", "335", "338", "350",
        "362", "365", "368", "371", "374", "377",
    ] {
        assert_eq!(weather_icon_from_wwo_code(code, true), Ok("snow-symbolic"));
    }
    for code in ["200", "386", "389", "392", "395"] {
        assert_eq!(weather_icon_from_wwo_code(code, false), Ok("storm-outline-symbolic"));
    }
}

#[test]
fn icon_table_unknown_code_comes_back() {
    assert_eq!(weather_icon_from_wwo_code("999", false), Err("999"));
    assert_eq!(weather_icon_from_wwo_code("", true), Err(""));
    assert_eq!(weather_icon_from_wwo_code("11", false), Err("11"));
}

#[test]
fn uv_color_scale() {
    assert_eq!(uv_index_color(0), "green");
    assert_eq!(uv_index_color(2), "green");
    assert_eq!(uv_index_color(3), "yellow");
    assert_eq!(uv_index_color(5), "yellow");
    assert_eq!(uv_index_color(6), "orange");
    assert_eq!(uv_index_color(7), "orange");
    assert_eq!(uv_index_color(8), "red");
    assert_eq!(uv_index_color(10), "red");
    assert_eq!(uv_index_color(11), "purple");
    assert_eq!(uv_index_color(12), "purple");
    assert_eq!(uv_index_color(13), "black");
    assert_eq!(uv_index_color(255), "black");
}

#[test]
fn metric_preference_selects_unit() {
    assert_eq!(TemperatureUnit::from_metric(true), TemperatureUnit::Celsius);
    assert_eq!(TemperatureUnit::from_metric(false), TemperatureUnit::Fahrenheit);
}

#[test]
fn decimal_parsing() {
    assert_eq!(parse_u8("0"), Some(0));
    assert_eq!(parse_u8("255"), Some(255));
    assert_eq!(parse_u8("100"), Some(100));
    assert_eq!(parse_u8("256"), None);
    assert_eq!(parse_u8(""), None);
    assert_eq!(parse_u8("12a"), None);
    assert_eq!(parse_u8("-3"), None);
    assert_eq!(parse_u8(" 7"), None);
}

#[test]
fn twelve_hour_clock_parsing() {
    assert_eq!(
        parse_time_12h("06:59 AM"),
        Some(TimeOfDay { hour: 6, minute: 59, second: 0 })
    );
    assert_eq!(
        parse_time_12h("05:45 PM"),
        Some(TimeOfDay { hour: 17, minute: 45, second: 0 })
    );
    assert_eq!(
        parse_time_12h("12:00 AM"),
        Some(TimeOfDay { hour: 0, minute: 0, second: 0 })
    );
    assert_eq!(
        parse_time_12h("12:00 PM"),
        Some(TimeOfDay { hour: 12, minute: 0, second: 0 })
    );
    assert_eq!(parse_time_12h("13:00 PM"), None);
    assert_eq!(parse_time_12h("00:10 AM"), None);
    assert_eq!(parse_time_12h("06:60 AM"), None);
    assert_eq!(parse_time_12h("6:59 AM"), None);
    assert_eq!(parse_time_12h("06:59AM"), None);
    assert_eq!(parse_time_12h(""), None);
}

#[test]
fn military_time_parsing() {
    assert_eq!(
        parse_military_time("0"),
        Some(TimeOfDay { hour: 0, minute: 0, second: 0 })
    );
    assert_eq!(
        parse_military_time("300"),
        Some(TimeOfDay { hour: 3, minute: 0, second: 0 })
    );
    assert_eq!(
        parse_military_time("1200"),
        Some(TimeOfDay { hour: 12, minute: 0, second: 0 })
    );
    assert_eq!(
        parse_military_time("2359"),
        Some(TimeOfDay { hour: 23, minute: 59, second: 0 })
    );
    assert_eq!(
        parse_military_time(""),
        Some(TimeOfDay { hour: 0, minute: 0, second: 0 })
    );
    assert_eq!(parse_military_time("2400"), None);
    assert_eq!(parse_military_time("1260"), None);
    assert_eq!(parse_military_time("12345"), None);
    assert_eq!(parse_military_time("12a"), None);
}

#[test]
fn date_parsing_with_leap_years() {
    assert_eq!(
        parse_date("2024-02-29"),
        Some(Date { year: 2024, month: 2, day: 29 })
    );
    assert_eq!(parse_date("2023-02-29"), None);
    assert_eq!(parse_date("2000-02-29"), Some(Date { year: 2000, month: 2, day: 29 }));
    assert_eq!(parse_date("1900-02-29"), None);
    assert_eq!(
        parse_date("2025-12-31"),
        Some(Date { year: 2025, month: 12, day: 31 })
    );
    assert_eq!(parse_date("2025-04-31"), None);
    assert_eq!(parse_date("2025-00-10"), None);
    assert_eq!(parse_date("2025-13-10"), None);
    assert_eq!(parse_date("2025-10-00"), None);
    assert_eq!(parse_date("2025-1-5"), None);
    assert_eq!(parse_date("not a date"), None);
}

#[test]
fn trimming() {
    assert_eq!(trim_spaces("  Patchy rain nearby "), "Patchy rain nearby");
    assert_eq!(trim_spaces("Sunny"), "Sunny");
    assert_eq!(trim_spaces(" \t\r\n "), "");
    assert_eq!(trim_spaces(""), "");
    assert_eq!(trim_spaces("a b"), "a b");
}
