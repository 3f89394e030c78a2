use weather_lookup::error::{append_decimal, WeatherError};
use weather_lookup::query::{prepare, request_url, upstream_url};
use weather_lookup::report::{
    check_status, first_description, report_from, reshape, CityWeather, Request,
};
use weather_lookup::units::{default_units, temperature_unit};

fn s(text: &str) -> String {
    text.to_string()
}

fn london() -> CityWeather {
    CityWeather {
        name: s("London"),
        country: s("GB"),
        temperature_bits: 15.2f64.to_bits(),
        humidity: 70,
        descriptions: vec![s("light rain")],
        wind_speed_bits: 3.1f64.to_bits(),
    }
}

#[test]
fn default_units_is_metric() {
    assert_eq!(default_units(), "metric");
}

#[test]
fn omitted_units_default_to_metric() {
    let r = Request::new(s("Paris"), None);
    assert_eq!(r.city, "Paris");
    assert_eq!(r.units, "metric");
    let r = Request::new(s("Paris"), Some(s("imperial")));
    assert_eq!(r.units, "imperial");
}

#[test]
fn units_select_the_label() {
    let omitted = Request::new(s("Oslo"), None);
    assert_eq!(temperature_unit(&omitted.units), "C");
    assert_eq!(temperature_unit(&s("imperial")), "F");
    assert_eq!(temperature_unit(&s("metric")), "C");
    assert_eq!(temperature_unit(&s("anything-else")), "C");
    assert_eq!(temperature_unit(&s("Imperial")), "C");
    assert_eq!(temperature_unit(&s("")), "C");
}

#[test]
fn city_is_percent_encoded_in_url() {
    let url = upstream_url("S\u{e3}o Paulo", "KEY", "metric");
    assert_eq!(
        url,
        "https://api.openweathermap.org/data/2.5/find?q=S%C3%A3o%20Paulo&appid=KEY&units=metric"
    );
    let url = upstream_url("a-b_c.d~e&f", "k", "imperial");
    assert_eq!(
        url,
        "https://api.openweathermap.org/data/2.5/find?q=a-b_c.d~e%26f&appid=k&units=imperial"
    );
}

#[test]
fn request_url_takes_encoded_city_as_is() {
    assert_eq!(
        request_url("New%20York", "abc", "kelvin"),
        "https://api.openweathermap.org/data/2.5/find?q=New%20York&appid=abc&units=kelvin"
    );
    assert_eq!(
        request_url("", "", ""),
        "https://api.openweathermap.org/data/2.5/find?q=&appid=&units="
    );
}

#[test]
fn missing_credential_is_a_config_error() {
    let r = Request::new(s("London"), None);
    let e = prepare(&r, None).unwrap_err();
    assert!(matches!(e, WeatherError::Config));
    assert_eq!(e.message(), "OPENWEATHER_API_KEY environment variable not set");
    let r = Request::new(s(""), Some(s("imperial")));
    assert!(matches!(prepare(&r, None), Err(WeatherError::Config)));
}

#[test]
fn credential_goes_into_the_url() {
    let r = Request::new(s("London"), None);
    let url = prepare(&r, Some(s("secret"))).unwrap();
    assert_eq!(
        url,
        "https://api.openweathermap.org/data/2.5/find?q=London&appid=secret&units=metric"
    );
}

#[test]
fn success_statuses_pass() {
    assert!(check_status(200, b"{}").is_ok());
    assert!(check_status(204, b"").is_ok());
    assert!(check_status(299, b"").is_ok());
}

#[test]
fn not_found_status_reports_code_and_body() {
    let e = check_status(404, b"city not found").unwrap_err();
    match &e {
        WeatherError::Upstream { status, body } => {
            assert_eq!(*status, 404);
            assert_eq!(body, "city not found");
        }
        other => panic!("unexpected error {:?}", other),
    }
    let m = e.message();
    assert_eq!(m, "Weather API error (404): city not found");
    assert!(m.contains("404"));
    assert!(m.contains("city not found"));
}

#[test]
fn statuses_outside_success_range_fail() {
    for status in [0u16, 100, 199, 300, 301, 500, 503, 65535] {
        let e = check_status(status, b"oops").unwrap_err();
        assert!(matches!(e, WeatherError::Upstream { status: s, .. } if s == status));
    }
    let e = check_status(500, b"").unwrap_err();
    assert_eq!(e.message(), "Weather API error (500): ");
    let e = check_status(65535, b"x").unwrap_err();
    assert_eq!(e.message(), "Weather API error (65535): x");
}

#[test]
fn invalid_utf8_body_is_read_lossily() {
    let e = check_status(502, &[b'b', b'a', b'd', 0xff, b'!']).unwrap_err();
    match e {
        WeatherError::Upstream { body, .. } => assert_eq!(body, "bad\u{fffd}!"),
        other => panic!("unexpected error {:?}", other),
    }
}

#[test]
fn decimal_text_of_numbers() {
    let mut t = s("n=");
    append_decimal(&mut t, 0);
    assert_eq!(t, "n=0");
    let mut t = String::new();
    append_decimal(&mut t, 10);
    assert_eq!(t, "10");
    let mut t = String::new();
    append_decimal(&mut t, 12345);
    assert_eq!(t, "12345");
}

#[test]
fn empty_list_is_not_found() {
    let e = report_from(&Vec::new(), &s("metric")).unwrap_err();
    assert!(matches!(e, WeatherError::NotFound));
    assert_eq!(e.message(), "no weather data found for this city");
}

#[test]
fn empty_weather_list_reads_unknown() {
    let mut rec = london();
    rec.descriptions = Vec::new();
    let rep = reshape(&rec, &s("metric"));
    assert_eq!(rep.description, "unknown");
    assert_eq!(first_description(&Vec::new()), "unknown");
    assert_eq!(first_description(&vec![s("fog"), s("mist")]), "fog");
}

#[test]
fn london_example() {
    let req = Request::new(s("London"), None);
    let rep = report_from(&vec![london()], &req.units).unwrap();
    assert_eq!(rep.city, "London");
    assert_eq!(rep.country.as_deref(), Some("GB"));
    assert_eq!(f64::from_bits(rep.temperature_bits), 15.2);
    assert_eq!(rep.temperature_unit, "C");
    assert_eq!(rep.description, "light rain");
    assert_eq!(rep.humidity, 70);
    assert_eq!(f64::from_bits(rep.wind_speed_bits), 3.1);
}

#[test]
fn only_the_first_record_is_used() {
    let mut second = london();
    second.name = s("London, Ontario");
    second.country = s("CA");
    let rep = report_from(&vec![london(), second], &s("imperial")).unwrap();
    assert_eq!(rep.city, "London");
    assert_eq!(rep.country.as_deref(), Some("GB"));
    assert_eq!(rep.temperature_unit, "F");
}

#[test]
fn pass_through_messages() {
    assert_eq!(WeatherError::Decode(s("bad json")).message(), "bad json");
    assert_eq!(WeatherError::Network(s("timed out")).message(), "timed out");
}
