use vstd::prelude::*;
use crate::models::{
    CurrentWeather, Location, OpenMeteoResponse, Reading, Timestamp, WeatherResponse, ZERO_BITS,
};
use crate::query::{Coordinate, is_digit};

verus! {

/// The provider's RFC 3339 reading of a timestamp text, as whole seconds
/// since the Unix epoch in UTC and the nanoseconds past them, or `None` where
/// the text is not an RFC 3339 date and time.
pub uninterp spec fn rfc3339_instant(s: Seq<char>) -> Option<(i64, u32)>;

pub open spec fn parsed_instant(s: Seq<char>) -> Option<Timestamp> {
    match rfc3339_instant(s) {
        None => None,
        Some(t) => Some(Timestamp { secs: t.0, nanos: t.1 }),
    }
}

/// Relies on chrono's `DateTime::parse_from_rfc3339`, whose result is read
/// back in UTC through `DateTime::timestamp` and `DateTime::timestamp_subsec_nanos`.
#[verifier::external_body]
fn parse_rfc3339(s: &str) -> (r: Option<Timestamp>)
    ensures
        r is None <==> rfc3339_instant(s@) is None,
        r is Some ==> rfc3339_instant(s@) == Some((r->Some_0.secs, r->Some_0.nanos)),
{
    match chrono::DateTime::parse_from_rfc3339(s) {
        Ok(t) => Some(Timestamp { secs: t.timestamp(), nanos: t.timestamp_subsec_nanos() }),
        Err(_) => None,
    }
}

/// Why a lookup failed.
#[derive(Clone, Copy, Debug, PartialEq, Eq, Structural)]
pub enum WeatherError {
    /// The provider could not be reached, or did not answer in time.
    Network { timed_out: bool },
    /// The provider answered with a status outside 200..=299.
    Upstream { status: u16 },
    /// The provider's body did not have the expected shape.
    Parse,
    /// The observation timestamp was not an RFC 3339 date and time.
    Time,
}

/// What came back from one request to the provider.
#[derive(Clone, Debug)]
pub enum UpstreamReply {
    /// The request could not be sent or its answer could not be read.
    Unreachable { timed_out: bool },
    /// An answer: its status, and its body read in the provider's schema
    /// (`None` where the body does not have that shape).
    Received { status: u16, payload: Option<OpenMeteoResponse> },
}

pub open spec fn is_success(status: u16) -> bool {
    200 <= status && status <= 299
}

/// The normalized response for a payload observed at `t`.
pub open spec fn normalized(p: OpenMeteoResponse, t: Timestamp) -> WeatherResponse {
    WeatherResponse {
        location: Location {
            latitude: p.latitude,
            longitude: p.longitude,
            elevation: match p.elevation {
                Some(e) => e,
                None => Reading { bits: ZERO_BITS },
            },
            timezone: p.timezone,
        },
        current: CurrentWeather {
            temperature: p.current.temperature_2m,
            humidity: p.current.relative_humidity_2m,
            rain: p.current.rain,
            wind_speed: p.current.wind_speed_10m,
            wind_direction: p.current.wind_direction_10m,
            wind_gusts: p.current.wind_gusts_10m,
            time: t,
        },
    }
}

pub open spec fn assembled(p: OpenMeteoResponse, instant: Option<Timestamp>) -> Result<
    WeatherResponse,
    WeatherError,
> {
    match instant {
        None => Err(WeatherError::Time),
        Some(t) => Ok(normalized(p, t)),
    }
}

/// The outcome of a lookup, given what the provider sent back.
pub open spec fn lookup_result(reply: UpstreamReply) -> Result<WeatherResponse, WeatherError> {
    match reply {
        UpstreamReply::Unreachable { timed_out } => Err(WeatherError::Network { timed_out }),
        UpstreamReply::Received { status, payload } => if !is_success(status) {
            Err(WeatherError::Upstream { status })
        } else {
            match payload {
                None => Err(WeatherError::Parse),
                Some(p) => assembled(p, parsed_instant(p.current.time@)),
            }
        },
    }
}

/// Whether an HTTP status is a success.
pub fn success_status(status: u16) -> (r: bool)
    ensures
        r == is_success(status),
{
    200 <= status && status <= 299
}

/// Builds the normalized response from a payload and the instant read from
/// its timestamp (`None` where it could not be read).
pub fn assemble(payload: OpenMeteoResponse, instant: Option<Timestamp>) -> (r: Result<
    WeatherResponse,
    WeatherError,
>)
    ensures
        r == assembled(payload, instant),
{
    let time = match instant {
        None => return Err(WeatherError::Time),
        Some(t) => t,
    };
    let elevation = match payload.elevation {
        Some(e) => e,
        None => Reading::zero(),
    };
    Ok(
        WeatherResponse {
            location: Location {
                latitude: payload.latitude,
                longitude: payload.longitude,
                elevation,
                timezone: payload.timezone,
            },
            current: CurrentWeather {
                temperature: payload.current.temperature_2m,
                humidity: payload.current.relative_humidity_2m,
                rain: payload.current.rain,
                wind_speed: payload.current.wind_speed_10m,
                wind_direction: payload.current.wind_direction_10m,
                wind_gusts: payload.current.wind_gusts_10m,
                time,
            },
        },
    )
}

/// Maps a payload into the normalized response, reading its timestamp as RFC 3339.
pub fn normalize(payload: OpenMeteoResponse) -> (r: Result<WeatherResponse, WeatherError>)
    ensures
        r == assembled(payload, parsed_instant(payload.current.time@)),
{
    let instant = parse_rfc3339(payload.current.time.as_str());
    assemble(payload, instant)
}

/// The provider's forecast endpoint.
pub const FORECAST_URL: &'static str = "https://api.open-meteo.com/v1/forecast";

/// How long one request to the provider may take, in seconds.
pub const DEFAULT_TIMEOUT_SECS: u64 = 10;

/// A character allowed in an IANA time zone name.
pub open spec fn is_zone_char(c: char) -> bool {
    ('a' <= c && c <= 'z') || ('A' <= c && c <= 'Z') || is_digit(c) || c == '/' || c == '_'
        || c == '-' || c == '+'
}

/// A time zone name that can stand in the request's query string as it is.
pub open spec fn is_zone_name(s: Seq<char>) -> bool {
    s.len() > 0 && forall|i: int| 0 <= i < s.len() ==> #[trigger] is_zone_char(s[i])
}

/// Which time zone the provider reports local times in.
#[derive(Clone, Debug)]
pub enum TimezonePolicy {
    /// Resolved by the provider from the coordinates.
    Auto,
    /// A fixed zone, such as `Europe/Berlin`.
    Named(String),
}

pub open spec fn zone_text(p: TimezonePolicy) -> Seq<char> {
    match p {
        TimezonePolicy::Auto => "auto"@,
        TimezonePolicy::Named(n) => n@,
    }
}

/// How one character of a parameter stands in the query string: a `+` would be
/// read there as a space, so it is written `%2B`.
pub open spec fn escaped_char(c: char) -> Seq<char> {
    if c == '+' {
        "%2B"@
    } else {
        seq![c]
    }
}

/// A parameter value as it stands in the query string.
pub open spec fn query_escaped(s: Seq<char>) -> Seq<char>
    decreases s.len(),
{
    if s.len() == 0 {
        Seq::empty()
    } else {
        query_escaped(s.drop_last()) + escaped_char(s.last())
    }
}

/// The query that asks the provider for the current observation at a coordinate.
/// Of the provider's two precipitation fields, `rain` is the one requested and reported.
pub open spec fn forecast_url(base: Seq<char>, lat: Seq<char>, lon: Seq<char>, zone: Seq<char>) -> Seq<char> {
    base + "?latitude="@ + query_escaped(lat) + "&longitude="@ + query_escaped(lon)
        + "&current=temperature_2m,relative_humidity_2m,rain,wind_speed_10m,wind_direction_10m,wind_gusts_10m&timezone="@
        + query_escaped(zone)
}

fn append_escaped(out: &mut String, s: &str)
    ensures
        final(out)@ == old(out)@ + query_escaped(s@),
{
    let len = s.unicode_len();
    let mut i: usize = 0;
    while i < len
        invariant
            len == s@.len(),
            i <= len,
            out@ == old(out)@ + query_escaped(s@.subrange(0, i as int)),
        decreases len - i,
    {
        let c = s.get_char(i);
        if c == '+' {
            out.append("%2B");
        } else {
            let one = s.substring_char(i, i + 1);
            assert(one@ =~= seq![c]);
            out.append(one);
        }
        assert(s@.subrange(0, i + 1).drop_last() =~= s@.subrange(0, i as int));
        assert(out@ =~= old(out)@ + query_escaped(s@.subrange(0, i + 1)));
        i = i + 1;
    }
    assert(s@.subrange(0, len as int) =~= s@);
}

/// The immutable configuration of the weather client.
#[derive(Clone, Debug)]
pub struct WeatherService {
    pub base_url: String,
    pub timezone: TimezonePolicy,
    pub timeout_secs: u64,
}

impl WeatherService {
    pub open spec fn wf(&self) -> bool {
        match self.timezone {
            TimezonePolicy::Auto => true,
            TimezonePolicy::Named(n) => is_zone_name(n@),
        }
    }

    /// The client for the public provider, with the time zone resolved from the coordinates.
    pub fn new() -> (r: WeatherService)
        ensures
            r.wf(),
            r.base_url@ == FORECAST_URL@,
            r.timezone is Auto,
            r.timeout_secs == DEFAULT_TIMEOUT_SECS,
    {
        WeatherService {
            base_url: String::from_str(FORECAST_URL),
            timezone: TimezonePolicy::Auto,
            timeout_secs: DEFAULT_TIMEOUT_SECS,
        }
    }

    /// The client for the public provider, reporting local times in the named
    /// zone; `None` where the name holds a character a zone name cannot have.
    pub fn with_timezone(name: String) -> (r: Option<WeatherService>)
        ensures
            r is Some <==> is_zone_name(name@),
            r is Some ==> r->Some_0.wf() && r->Some_0.base_url@ == FORECAST_URL@
                && r->Some_0.timezone == TimezonePolicy::Named(name)
                && r->Some_0.timeout_secs == DEFAULT_TIMEOUT_SECS,
    {
        let len = name.as_str().unicode_len();
        if len == 0 {
            return None;
        }
        let mut i: usize = 0;
        while i < len
            invariant
                len == name@.len(),
                i <= len,
                forall|k: int| 0 <= k < i ==> #[trigger] is_zone_char(name@[k]),
            decreases len - i,
        {
            let c = name.as_str().get_char(i);
            let ok = ('a' <= c && c <= 'z') || ('A' <= c && c <= 'Z') || ('0' <= c && c <= '9')
                || c == '/' || c == '_' || c == '-' || c == '+';
            if !ok {
                assert(!is_zone_char(name@[i as int]));
                return None;
            }
            i = i + 1;
        }
        Some(
            WeatherService {
                base_url: String::from_str(FORECAST_URL),
                timezone: TimezonePolicy::Named(name),
                timeout_secs: DEFAULT_TIMEOUT_SECS,
            },
        )
    }

    /// The request that asks the provider for the current observation at `c`;
    /// each parameter goes in as given, with `+` written `%2B`.
    pub fn request_url(&self, c: &Coordinate) -> (r: String)
        ensures
            r@ == forecast_url(self.base_url@, c.latitude@, c.longitude@, zone_text(self.timezone)),
    {
        let mut url = self.base_url.clone();
        url.append("?latitude=");
        append_escaped(&mut url, c.latitude.as_str());
        url.append("&longitude=");
        append_escaped(&mut url, c.longitude.as_str());
        url.append(
            "&current=temperature_2m,relative_humidity_2m,rain,wind_speed_10m,wind_direction_10m,wind_gusts_10m&timezone=",
        );
        let zone: &str = match &self.timezone {
            TimezonePolicy::Auto => "auto",
            TimezonePolicy::Named(n) => n.as_str(),
        };
        append_escaped(&mut url, zone);
        url
    }

    /// Completes a lookup from what the provider sent back to `request_url`:
    /// an unreachable provider, a status outside 200..=299, a body of another
    /// shape and an unreadable timestamp each give their own error.
    pub fn get_current_weather(&self, reply: UpstreamReply) -> (r: Result<WeatherResponse, WeatherError>)
        ensures
            r == lookup_result(reply),
    {
        match reply {
            UpstreamReply::Unreachable { timed_out } => Err(WeatherError::Network { timed_out }),
            UpstreamReply::Received { status, payload } => {
                if !success_status(status) {
                    return Err(WeatherError::Upstream { status });
                }
                match payload {
                    None => Err(WeatherError::Parse),
                    Some(p) => normalize(p),
                }
            },
        }
    }
}

} // verus!
