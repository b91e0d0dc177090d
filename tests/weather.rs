use weather_proxy::models::{OpenMeteoCurrent, OpenMeteoResponse, Reading, Timestamp, ZERO_BITS};
use weather_proxy::query::{check_numeral, QueryError, WeatherQuery};
use weather_proxy::routes::{begin, finish, message_for, respond, status_for, Action, ReplyBody};
use weather_proxy::weather_service::{
    assemble, normalize, success_status, TimezonePolicy, UpstreamReply, WeatherError,
    WeatherService,
};

fn r(x: f64) -> Reading {
    Reading { bits: x.to_bits() }
}

fn payload(time: &str, elevation: Option<f64>) -> OpenMeteoResponse {
    OpenMeteoResponse {
        latitude: r(1.3),
        longitude: r(103.8),
        elevation: elevation.map(r),
        timezone: "Asia/Singapore".to_string(),
        current: OpenMeteoCurrent {
            time: time.to_string(),
            temperature_2m: r(30.1),
            relative_humidity_2m: r(80.0),
            rain: r(0.0),
            wind_speed_10m: r(10.0),
            wind_direction_10m: r(180.0),
            wind_gusts_10m: r(15.0),
        },
    }
}

fn query(lat: Option<&str>, lon: Option<&str>) -> WeatherQuery {
    WeatherQuery { lat: lat.map(|s| s.to_string()), lon: lon.map(|s| s.to_string()) }
}

fn message_of(action: &Action) -> (u16, String) {
    match action {
        Action::Respond(reply) => match &reply.body {
            ReplyBody::Message(m) => (reply.status, m.clone()),
            ReplyBody::Weather(_) => panic!("expected a message"),
        },
        Action::Fetch(url) => panic!("expected no request, got {}", url),
    }
}

#[test]
fn normalizes_singapore_payload() {
    let w = normalize(payload("2024-01-01T12:00:00+00:00", Some(15.0))).unwrap();
    assert_eq!(f64::from_bits(w.location.latitude.bits), 1.3);
    assert_eq!(f64::from_bits(w.location.longitude.bits), 103.8);
    assert_eq!(f64::from_bits(w.location.elevation.bits), 15.0);
    assert_eq!(w.location.timezone, "Asia/Singapore");
    assert_eq!(f64::from_bits(w.current.temperature.bits), 30.1);
    assert_eq!(f64::from_bits(w.current.humidity.bits), 80.0);
    assert_eq!(f64::from_bits(w.current.rain.bits), 0.0);
    assert_eq!(f64::from_bits(w.current.wind_speed.bits), 10.0);
    assert_eq!(f64::from_bits(w.current.wind_direction.bits), 180.0);
    assert_eq!(f64::from_bits(w.current.wind_gusts.bits), 15.0);
    assert_eq!(w.current.time, Timestamp { secs: 1704110400, nanos: 0 });
}

#[test]
fn missing_elevation_is_zero() {
    let w = normalize(payload("2024-01-01T12:00:00+00:00", None)).unwrap();
    assert_eq!(w.location.elevation.bits, ZERO_BITS);
    assert_eq!(f64::from_bits(w.location.elevation.bits), 0.0);
    assert_eq!(Reading::zero().bits, 0.0f64.to_bits());
}

#[test]
fn offset_timestamp_is_converted_to_utc() {
    let w = normalize(payload("2024-01-01T14:00:00+02:00", Some(15.0))).unwrap();
    assert_eq!(w.current.time, Timestamp { secs: 1704110400, nanos: 0 });
    let w = normalize(payload("2024-01-01T12:00:00.25Z", Some(15.0))).unwrap();
    assert_eq!(w.current.time, Timestamp { secs: 1704110400, nanos: 250_000_000 });
}

#[test]
fn malformed_time_is_time_error() {
    assert_eq!(normalize(payload("not-a-date", Some(15.0))).unwrap_err(), WeatherError::Time);
    assert_eq!(normalize(payload("2024-01-01T12:00", Some(15.0))).unwrap_err(), WeatherError::Time);
    let s = WeatherService::new();
    let reply = finish(
        &s,
        UpstreamReply::Received { status: 200, payload: Some(payload("not-a-date", None)) },
    );
    assert_eq!(reply.status, 502);
    match reply.body {
        ReplyBody::Message(m) => {
            assert_eq!(m, "the weather provider's observation time could not be parsed")
        }
        ReplyBody::Weather(_) => panic!("expected a failure"),
    }
}

#[test]
fn assemble_without_instant_is_time_error() {
    let p = payload("2024-01-01T12:00:00Z", Some(1.0));
    assert_eq!(assemble(p, None).unwrap_err(), WeatherError::Time);
    let p = payload("ignored", Some(1.0));
    let w = assemble(p, Some(Timestamp { secs: 7, nanos: 9 })).unwrap();
    assert_eq!(w.current.time, Timestamp { secs: 7, nanos: 9 });
}

#[test]
fn well_formed_reply_is_ok() {
    let s = WeatherService::new();
    let reply = finish(
        &s,
        UpstreamReply::Received {
            status: 200,
            payload: Some(payload("2024-01-01T12:00:00+00:00", Some(15.0))),
        },
    );
    assert_eq!(reply.status, 200);
    match reply.body {
        ReplyBody::Weather(w) => {
            assert_eq!(w.location.timezone, "Asia/Singapore");
            assert_eq!(f64::from_bits(w.current.temperature.bits), 30.1);
        }
        ReplyBody::Message(m) => panic!("unexpected failure {}", m),
    }
}

#[test]
fn upstream_500_is_bad_gateway_without_body() {
    let s = WeatherService::new();
    let reply = finish(&s, UpstreamReply::Received { status: 500, payload: None });
    assert_eq!(reply.status, 502);
    match reply.body {
        ReplyBody::Message(m) => {
            assert_eq!(m, "the weather provider answered with status 500");
        }
        ReplyBody::Weather(_) => panic!("expected a failure"),
    }
    // A failure status wins over a body that happened to parse.
    let reply = finish(
        &s,
        UpstreamReply::Received { status: 404, payload: Some(payload("2024-01-01T12:00:00Z", None)) },
    );
    assert_eq!(reply.status, 502);
}

#[test]
fn unparseable_body_is_parse_error() {
    let s = WeatherService::new();
    assert_eq!(
        s.get_current_weather(UpstreamReply::Received { status: 200, payload: None }).unwrap_err(),
        WeatherError::Parse
    );
    let reply = finish(&s, UpstreamReply::Received { status: 200, payload: None });
    assert_eq!(reply.status, 502);
    match reply.body {
        ReplyBody::Message(m) => assert_eq!(m, "the weather provider's answer could not be read"),
        ReplyBody::Weather(_) => panic!("expected a failure"),
    }
}

#[test]
fn network_failures() {
    let s = WeatherService::new();
    assert_eq!(
        s.get_current_weather(UpstreamReply::Unreachable { timed_out: false }).unwrap_err(),
        WeatherError::Network { timed_out: false }
    );
    assert_eq!(finish(&s, UpstreamReply::Unreachable { timed_out: true }).status, 504);
    assert_eq!(finish(&s, UpstreamReply::Unreachable { timed_out: false }).status, 502);
    assert_eq!(
        message_for(WeatherError::Network { timed_out: true }),
        "the weather provider did not answer in time"
    );
    assert_eq!(
        message_for(WeatherError::Network { timed_out: false }),
        "the weather provider could not be reached"
    );
}

#[test]
fn status_messages_spell_the_status() {
    assert_eq!(message_for(WeatherError::Upstream { status: 0 }), "the weather provider answered with status 0");
    assert_eq!(message_for(WeatherError::Upstream { status: 429 }), "the weather provider answered with status 429");
    assert_eq!(
        message_for(WeatherError::Upstream { status: 65535 }),
        "the weather provider answered with status 65535"
    );
    assert_eq!(status_for(WeatherError::Upstream { status: 404 }), 502);
    assert_eq!(status_for(WeatherError::Parse), 502);
    assert_eq!(status_for(WeatherError::Time), 502);
}

#[test]
fn respond_ok_is_200() {
    let w = normalize(payload("2024-01-01T12:00:00Z", None)).unwrap();
    assert_eq!(respond(Ok(w)).status, 200);
    assert_eq!(respond(Err(WeatherError::Parse)).status, 502);
}

#[test]
fn numerals() {
    for s in [
        "1.3", "103.8", "-33.8688", "+5", "0", "007.50", "5.", ".5", "-.5", "1e5", "1E5",
        "1.3e-2", "2.5E+3", "+.5e1", "inf", "-inf", "Infinity", "+INFINITY", "nan", "NaN",
    ] {
        assert!(check_numeral(s), "{}", s);
        assert!(s.parse::<f64>().is_ok(), "{}", s);
    }
    for s in [
        "", "-", "+", ".", "e5", "1e", "1e+", ".e1", "1.3.4", "abc", " 1", "1,3", "--1", "infinit",
        "nanx", "1_0", "0x10", "in f",
    ] {
        assert!(!check_numeral(s), "{}", s);
        assert!(s.parse::<f64>().is_err(), "{}", s);
    }
}

#[test]
fn query_validation() {
    assert_eq!(query(None, Some("1")).coordinate().unwrap_err(), QueryError::MissingLatitude);
    assert_eq!(query(Some("x"), Some("1")).coordinate().unwrap_err(), QueryError::InvalidLatitude);
    assert_eq!(query(Some("1"), None).coordinate().unwrap_err(), QueryError::MissingLongitude);
    assert_eq!(query(Some("1"), Some("")).coordinate().unwrap_err(), QueryError::InvalidLongitude);
    assert_eq!(query(None, None).coordinate().unwrap_err(), QueryError::MissingLatitude);
    let c = query(Some("1.3"), Some("-103.8")).coordinate().unwrap();
    assert_eq!(c.latitude, "1.3");
    assert_eq!(c.longitude, "-103.8");
}

#[test]
fn bad_query_is_400_without_request() {
    let s = WeatherService::new();
    assert_eq!(
        message_of(&begin(&s, &query(None, Some("103.8")))),
        (400, "missing query parameter: lat".to_string())
    );
    assert_eq!(
        message_of(&begin(&s, &query(Some("1.3"), Some("east")))),
        (400, "query parameter lon is not a number".to_string())
    );
    assert_eq!(
        message_of(&begin(&s, &query(Some("north"), None))),
        (400, "query parameter lat is not a number".to_string())
    );
    assert_eq!(
        message_of(&begin(&s, &query(Some("1.3"), None))),
        (400, "missing query parameter: lon".to_string())
    );
}

#[test]
fn good_query_fetches_forecast_url() {
    let s = WeatherService::new();
    assert!(matches!(s.timezone, TimezonePolicy::Auto));
    assert_eq!(s.timeout_secs, 10);
    match begin(&s, &query(Some("1.3"), Some("103.8"))) {
        Action::Fetch(url) => assert_eq!(
            url,
            "https://api.open-meteo.com/v1/forecast?latitude=1.3&longitude=103.8&current=temperature_2m,relative_humidity_2m,rain,wind_speed_10m,wind_direction_10m,wind_gusts_10m&timezone=auto"
        ),
        Action::Respond(r) => panic!("unexpected answer {}", r.status),
    }
}

#[test]
fn named_timezone() {
    let s = WeatherService::with_timezone("Europe/Berlin".to_string()).unwrap();
    match begin(&s, &query(Some("52.52"), Some("13.41"))) {
        Action::Fetch(url) => assert!(url.ends_with("&timezone=Europe/Berlin")),
        Action::Respond(r) => panic!("unexpected answer {}", r.status),
    }
    let s = WeatherService::with_timezone("Etc/GMT+5".to_string()).unwrap();
    match begin(&s, &query(Some("1"), Some("2"))) {
        Action::Fetch(url) => assert!(url.ends_with("&timezone=Etc/GMT%2B5")),
        Action::Respond(r) => panic!("unexpected answer {}", r.status),
    }
    assert!(WeatherService::with_timezone(String::new()).is_none());
    assert!(WeatherService::with_timezone("a&b".to_string()).is_none());
    assert!(WeatherService::with_timezone("Europe Berlin".to_string()).is_none());
}

#[test]
fn float_syntax_coordinates_are_fetched() {
    let s = WeatherService::new();
    match begin(&s, &query(Some(".5"), Some("1e+2"))) {
        Action::Fetch(url) => assert!(url.starts_with(
            "https://api.open-meteo.com/v1/forecast?latitude=.5&longitude=1e%2B2&current="
        )),
        Action::Respond(r) => panic!("unexpected answer {}", r.status),
    }
    match begin(&s, &query(Some("+5."), Some("91.0"))) {
        Action::Fetch(url) => assert!(url.contains("?latitude=%2B5.&longitude=91.0&")),
        Action::Respond(r) => panic!("unexpected answer {}", r.status),
    }
}

#[test]
fn success_statuses() {
    assert!(success_status(200));
    assert!(success_status(299));
    assert!(!success_status(199));
    assert!(!success_status(300));
    assert!(!success_status(500));
}
