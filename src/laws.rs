use vstd::prelude::*;
use crate::envelope::{ErrorView, Payload, WeatherEnvelopeView};
use crate::gateway::{
    forecast_rejection, search_reply, weather_reply, ERROR_KEY, CODE_KEY, MESSAGE_KEY,
    FORECAST_UNSUPPORTED_CODE, FORECAST_UNSUPPORTED_MESSAGE, OK_CODE, OK_MESSAGE,
};
use crate::json::{json_member, parsed_json};

verus! {

/// A search that names no limit reports the limit 10, whatever the provider
/// answered.
pub proof fn search_limit_defaults(q: Seq<char>, body: Option<Seq<char>>)
    ensures
        search_reply(q, None, body).limit == 10,
{
}

/// A search that names a limit reports that limit, whatever the provider
/// answered.
pub proof fn search_limit_echoed(q: Seq<char>, n: i32, body: Option<Seq<char>>)
    ensures
        search_reply(q, Some(n), body).limit == n,
{
}

/// A current-conditions request that carries a forecast selector, empty or
/// not, gets the fixed rejection, which echoes the request, whatever the
/// provider would have answered.
pub proof fn forecast_always_rejected(id: Seq<char>, forecast: Seq<char>, body: Option<Seq<char>>)
    ensures
        weather_reply(id, Some(forecast), body) == forecast_rejection(id, Some(forecast)),
        weather_reply(id, Some(forecast), body) == (WeatherEnvelopeView {
            status: false,
            error: ErrorView::Gateway {
                code: FORECAST_UNSUPPORTED_CODE,
                message: FORECAST_UNSUPPORTED_MESSAGE@,
            },
            id,
            forecast: Some(forecast),
            data: Payload::Empty,
        }),
{
}

/// For a request with an identifier, a provider answer with a top-level error
/// member gives a failed reply that carries the provider's own error code and
/// message.
pub proof fn provider_error_surfaced(
    id: Seq<char>,
    body: Seq<char>,
    doc: serde_json::Value,
    err: serde_json::Value,
)
    requires
        id.len() > 0,
        parsed_json(body) == Some(doc),
        json_member(doc, ERROR_KEY@) == Some(err),
    ensures
        !weather_reply(id, None, Some(body)).status,
        weather_reply(id, None, Some(body)).error == (ErrorView::Provider {
            code: json_member(err, CODE_KEY@),
            message: json_member(err, MESSAGE_KEY@),
        }),
        weather_reply(id, None, Some(body)).data == Payload::Empty,
{
}

/// For a request with an identifier, a provider answer that is JSON without a
/// top-level error member gives a successful reply, code 200 and message "OK", that carries the provider's
/// document.
pub proof fn provider_success_passed_through(id: Seq<char>, body: Seq<char>, doc: serde_json::Value)
    requires
        id.len() > 0,
        parsed_json(body) == Some(doc),
        json_member(doc, ERROR_KEY@).is_none(),
    ensures
        weather_reply(id, None, Some(body)) == (WeatherEnvelopeView {
            status: true,
            error: ErrorView::Gateway { code: OK_CODE, message: OK_MESSAGE@ },
            id,
            forecast: None,
            data: Payload::Document(doc),
        }),
{
}

/// Repeating a current-conditions request against a provider that answers
/// successfully both times gives replies that differ at most in the carried
/// document; the same answer gives the same reply.
pub proof fn weather_reply_repeatable(
    id: Seq<char>,
    forecast: Option<Seq<char>>,
    first: Seq<char>,
    second: Seq<char>,
)
    requires
        parsed_json(first) matches Some(d) && json_member(d, ERROR_KEY@).is_none(),
        parsed_json(second) matches Some(d) && json_member(d, ERROR_KEY@).is_none(),
    ensures
        ({
            let a = weather_reply(id, forecast, Some(first));
            let b = weather_reply(id, forecast, Some(second));
            &&& a.status == b.status
            &&& a.error == b.error
            &&& a.id == b.id
            &&& a.forecast == b.forecast
            &&& first == second ==> a == b
        }),
{
}

/// Repeating a location search against a provider that answers with JSON both
/// times gives replies that differ at most in the carried document; the same
/// answer gives the same reply.
pub proof fn search_reply_repeatable(
    q: Seq<char>,
    limit: Option<i32>,
    first: Seq<char>,
    second: Seq<char>,
)
    requires
        parsed_json(first).is_some(),
        parsed_json(second).is_some(),
    ensures
        ({
            let a = search_reply(q, limit, Some(first));
            let b = search_reply(q, limit, Some(second));
            &&& a.status == b.status
            &&& a.error == b.error
            &&& a.query == b.query
            &&& a.limit == b.limit
            &&& first == second ==> a == b
        }),
{
}

} // verus!
