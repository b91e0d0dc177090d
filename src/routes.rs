use vstd::prelude::*;
use crate::models::{OpenMeteoResponse, Timestamp, WeatherResponse, ZERO_BITS};
use crate::query::{QueryError, WeatherQuery, is_numeral, opt_view, query_error};
use crate::weather_service::{
    UpstreamReply, WeatherError, WeatherService, forecast_url, is_success, lookup_result,
    normalized, parsed_instant, zone_text,
};

verus! {

/// The body of an answer to the caller.
#[derive(Clone, Debug)]
pub enum ReplyBody {
    Weather(WeatherResponse),
    Message(String),
}

/// An answer to the caller: an HTTP status and a body.
#[derive(Clone, Debug)]
pub struct Reply {
    pub status: u16,
    pub body: ReplyBody,
}

/// What the handler does next with an inbound query.
#[derive(Clone, Debug)]
pub enum Action {
    /// Ask the provider at this URL, then hand its reply to `finish`.
    Fetch(String),
    /// Answer at once, without asking the provider.
    Respond(Reply),
}

pub const BAD_REQUEST: u16 = 400;

pub const OK: u16 = 200;

pub const BAD_GATEWAY: u16 = 502;

pub const GATEWAY_TIMEOUT: u16 = 504;

pub open spec fn query_message(e: QueryError) -> Seq<char> {
    match e {
        QueryError::MissingLatitude => "missing query parameter: lat"@,
        QueryError::InvalidLatitude => "query parameter lat is not a number"@,
        QueryError::MissingLongitude => "missing query parameter: lon"@,
        QueryError::InvalidLongitude => "query parameter lon is not a number"@,
    }
}

pub open spec fn failure_status(e: WeatherError) -> u16 {
    match e {
        WeatherError::Network { timed_out } => if timed_out {
            GATEWAY_TIMEOUT
        } else {
            BAD_GATEWAY
        },
        _ => BAD_GATEWAY,
    }
}

pub open spec fn digit_text(d: int) -> Seq<char> {
    if d == 0 {
        "0"@
    } else if d == 1 {
        "1"@
    } else if d == 2 {
        "2"@
    } else if d == 3 {
        "3"@
    } else if d == 4 {
        "4"@
    } else if d == 5 {
        "5"@
    } else if d == 6 {
        "6"@
    } else if d == 7 {
        "7"@
    } else if d == 8 {
        "8"@
    } else {
        "9"@
    }
}

/// The decimal digits of `n`, without leading zeros.
pub open spec fn decimal(n: nat) -> Seq<char>
    decreases n,
{
    if n < 10 {
        digit_text(n as int)
    } else {
        decimal(n / 10) + digit_text((n % 10) as int)
    }
}

pub open spec fn upstream_message(status: u16) -> Seq<char> {
    "the weather provider answered with status "@ + decimal(status as nat)
}

/// What the caller is told of a failed lookup; nothing of the provider's
/// body takes part in it.
pub open spec fn failure_message(e: WeatherError) -> Seq<char> {
    match e {
        WeatherError::Network { timed_out } => if timed_out {
            "the weather provider did not answer in time"@
        } else {
            "the weather provider could not be reached"@
        },
        WeatherError::Upstream { status } => upstream_message(status),
        WeatherError::Parse => "the weather provider's answer could not be read"@,
        WeatherError::Time => "the weather provider's observation time could not be parsed"@,
    }
}

/// `r` is the answer for the outcome of a lookup.
pub open spec fn answers(r: Reply, outcome: Result<WeatherResponse, WeatherError>) -> bool {
    match outcome {
        Ok(w) => r.status == OK && r.body == ReplyBody::Weather(w),
        Err(e) => r.status == failure_status(e) && r.body is Message && r.body->Message_0@
            == failure_message(e),
    }
}

/// `a` is what the handler does first with the query parameters `lat` and `lon`.
pub open spec fn plans(
    a: Action,
    service: WeatherService,
    lat: Option<Seq<char>>,
    lon: Option<Seq<char>>,
) -> bool {
    match query_error(lat, lon) {
        Some(e) => a is Respond && a->Respond_0.status == BAD_REQUEST && a->Respond_0.body is Message
            && a->Respond_0.body->Message_0@ == query_message(e),
        None => a is Fetch && a->Fetch_0@ == forecast_url(
            service.base_url@,
            lat->Some_0,
            lon->Some_0,
            zone_text(service.timezone),
        ),
    }
}

fn digit_str(d: u16) -> (r: &'static str)
    requires
        d < 10,
    ensures
        r@ == digit_text(d as int),
{
    if d == 0 {
        "0"
    } else if d == 1 {
        "1"
    } else if d == 2 {
        "2"
    } else if d == 3 {
        "3"
    } else if d == 4 {
        "4"
    } else if d == 5 {
        "5"
    } else if d == 6 {
        "6"
    } else if d == 7 {
        "7"
    } else if d == 8 {
        "8"
    } else {
        "9"
    }
}

fn append_decimal(out: &mut String, n: u16)
    ensures
        final(out)@ == old(out)@ + decimal(n as nat),
    decreases n,
{
    if n >= 10 {
        append_decimal(out, n / 10);
    }
    out.append(digit_str(n % 10));
    proof {
        if n >= 10 {
            assert(decimal(n as nat) == decimal((n / 10) as nat) + digit_text((n % 10) as int));
        }
    }
    assert(final(out)@ =~= old(out)@ + decimal(n as nat));
}

/// The status of the answer to a failed lookup.
pub fn status_for(e: WeatherError) -> (r: u16)
    ensures
        r == failure_status(e),
{
    match e {
        WeatherError::Network { timed_out } => if timed_out {
            GATEWAY_TIMEOUT
        } else {
            BAD_GATEWAY
        },
        _ => BAD_GATEWAY,
    }
}

/// The message of the answer to a failed lookup.
pub fn message_for(e: WeatherError) -> (r: String)
    ensures
        r@ == failure_message(e),
{
    match e {
        WeatherError::Network { timed_out } => if timed_out {
            String::from_str("the weather provider did not answer in time")
        } else {
            String::from_str("the weather provider could not be reached")
        },
        WeatherError::Upstream { status } => {
            let mut m = String::from_str("the weather provider answered with status ");
            append_decimal(&mut m, status);
            m
        },
        WeatherError::Parse => String::from_str("the weather provider's answer could not be read"),
        WeatherError::Time => String::from_str(
            "the weather provider's observation time could not be parsed",
        ),
    }
}

/// The message of the answer to a refused query.
pub fn query_message_for(e: QueryError) -> (r: String)
    ensures
        r@ == query_message(e),
{
    match e {
        QueryError::MissingLatitude => String::from_str("missing query parameter: lat"),
        QueryError::InvalidLatitude => String::from_str("query parameter lat is not a number"),
        QueryError::MissingLongitude => String::from_str("missing query parameter: lon"),
        QueryError::InvalidLongitude => String::from_str("query parameter lon is not a number"),
    }
}

/// First step of `GET /weather/current`: refuse a query whose `lat` or `lon`
/// is missing or not a number with 400, before any request to the provider;
/// otherwise ask the provider.
pub fn begin(service: &WeatherService, query: &WeatherQuery) -> (r: Action)
    ensures
        plans(r, *service, opt_view(query.lat), opt_view(query.lon)),
{
    match query.coordinate() {
        Err(e) => Action::Respond(
            Reply { status: BAD_REQUEST, body: ReplyBody::Message(query_message_for(e)) },
        ),
        Ok(c) => Action::Fetch(service.request_url(&c)),
    }
}

/// The answer for the outcome of a lookup: 200 with the normalized response,
/// or the error's status with its message.
pub fn respond(outcome: Result<WeatherResponse, WeatherError>) -> (r: Reply)
    ensures
        answers(r, outcome),
{
    match outcome {
        Ok(w) => Reply { status: OK, body: ReplyBody::Weather(w) },
        Err(e) => Reply { status: status_for(e), body: ReplyBody::Message(message_for(e)) },
    }
}

/// Last step of `GET /weather/current`: the answer for what the provider sent back.
pub fn finish(service: &WeatherService, reply: UpstreamReply) -> (r: Reply)
    ensures
        answers(r, lookup_result(reply)),
{
    respond(service.get_current_weather(reply))
}

/// A query whose `lat` or `lon` is missing or not a number is answered with
/// 400 at once: the handler never asks the provider for it.
pub proof fn lemma_bad_query_never_fetches(
    service: WeatherService,
    lat: Option<Seq<char>>,
    lon: Option<Seq<char>>,
)
    requires
        lat is None || lon is None || !is_numeral(lat->Some_0) || !is_numeral(lon->Some_0),
    ensures
        query_error(lat, lon) is Some,
        forall|a: Action| #[trigger]
            plans(a, service, lat, lon) ==> !(a is Fetch) && a->Respond_0.status == BAD_REQUEST,
{
}

/// Every failed lookup is answered with a status outside 200..=299.
pub proof fn lemma_failure_is_never_success(e: WeatherError)
    ensures
        !is_success(failure_status(e)),
        failure_status(e) >= 500,
{
}

/// A well-formed payload under a success status is answered with 200 and a
/// response holding each of the four location fields and six observation
/// fields of the payload under its own name, the elevation defaulting to
/// zero, and the observation time read from the payload's timestamp.
pub proof fn lemma_well_formed_payload_answers_every_field(
    status: u16,
    p: OpenMeteoResponse,
    t: Timestamp,
)
    requires
        is_success(status),
        parsed_instant(p.current.time@) == Some(t),
    ensures
        lookup_result((UpstreamReply::Received { status, payload: Some(p) })) == Ok::<
            WeatherResponse,
            WeatherError,
        >(normalized(p, t)),
        forall|r: Reply| #[trigger]
            answers(r, lookup_result((UpstreamReply::Received { status, payload: Some(p) })))
                ==> r.status == OK && r.body == ReplyBody::Weather(normalized(p, t)),
        normalized(p, t).location.latitude == p.latitude,
        normalized(p, t).location.longitude == p.longitude,
        p.elevation is Some ==> normalized(p, t).location.elevation == p.elevation->Some_0,
        normalized(p, t).location.timezone == p.timezone,
        normalized(p, t).current.temperature == p.current.temperature_2m,
        normalized(p, t).current.humidity == p.current.relative_humidity_2m,
        normalized(p, t).current.rain == p.current.rain,
        normalized(p, t).current.wind_speed == p.current.wind_speed_10m,
        normalized(p, t).current.wind_direction == p.current.wind_direction_10m,
        normalized(p, t).current.wind_gusts == p.current.wind_gusts_10m,
        normalized(p, t).current.time == t,
{
}

/// A payload without an elevation is no error: it is answered with 200 and
/// an elevation of zero.
pub proof fn lemma_missing_elevation_is_zero(
    status: u16,
    p: OpenMeteoResponse,
    t: Timestamp,
)
    requires
        is_success(status),
        p.elevation is None,
        parsed_instant(p.current.time@) == Some(t),
    ensures
        lookup_result((UpstreamReply::Received { status, payload: Some(p) })) is Ok,
        lookup_result(
            (UpstreamReply::Received { status, payload: Some(p) }),
        )->Ok_0.location.elevation.bits == ZERO_BITS,
        forall|r: Reply| #[trigger]
            answers(r, lookup_result((UpstreamReply::Received { status, payload: Some(p) })))
                ==> r.status == OK && r.body is Weather && r.body->Weather_0.location.elevation.bits
                == ZERO_BITS,
{
}

/// A failure status from the provider, or a body not in its schema, is
/// answered with a status outside 200..=299 and a message fixed by the
/// provider's status alone: nothing of the provider's body is echoed.
pub proof fn lemma_upstream_failure_answers_fixed_message(
    status: u16,
    payload: Option<OpenMeteoResponse>,
)
    requires
        !is_success(status) || payload is None,
    ensures
        forall|r: Reply| #[trigger]
            answers(r, lookup_result((UpstreamReply::Received { status, payload })))
                ==> !is_success(r.status) && r.body is Message && r.body->Message_0@ == (if is_success(
                status,
            ) {
                failure_message(WeatherError::Parse)
            } else {
                upstream_message(status)
            }),
{
}

/// A payload whose observation timestamp is not RFC 3339 is answered with a
/// status outside 200..=299 that reports a time-parsing failure.
pub proof fn lemma_unreadable_time_is_time_failure(status: u16, p: OpenMeteoResponse)
    requires
        is_success(status),
        parsed_instant(p.current.time@) is None,
    ensures
        lookup_result((UpstreamReply::Received { status, payload: Some(p) })) == Err::<
            WeatherResponse,
            WeatherError,
        >(WeatherError::Time),
        forall|r: Reply| #[trigger]
            answers(r, lookup_result((UpstreamReply::Received { status, payload: Some(p) })))
                ==> !is_success(r.status) && r.body is Message && r.body->Message_0@
                == failure_message(WeatherError::Time),
{
}

} // verus!
