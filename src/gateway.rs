use vstd::prelude::*;
use vstd::string::*;
use crate::envelope::{
    opt_text, ErrorDetail, ErrorView, Payload, RootEnvelope, SearchEnvelope, SearchEnvelopeView,
    WeatherEnvelope, WeatherEnvelopeView,
};
use crate::json::{json_member, member, parse_json, parsed_json};
use crate::query::{limit_or_default, WeatherDataQuery, WeatherLocationQuery};
use crate::request::{
    current_request, current_request_of, search_request, search_request_of, OutboundRequest,
};

verus! {

/// The code of the reply to a forecast request.
pub const FORECAST_UNSUPPORTED_CODE: u16 = 400;

pub const FORECAST_UNSUPPORTED_MESSAGE: &'static str = "Forecast is not yet supported";

/// The code that a successful current-conditions reply carries.
pub const OK_CODE: u16 = 200;

pub const OK_MESSAGE: &'static str = "OK";

/// The code of a reply whose provider could not be reached or did not answer
/// with JSON.
pub const UPSTREAM_FAILURE_CODE: u16 = 502;

pub const UPSTREAM_FAILURE_MESSAGE: &'static str = "Weather provider unavailable";

/// The code of a reply to a request that lacks a required parameter.
pub const MISSING_PARAMETER_CODE: u16 = 400;

pub const MISSING_QUERY_MESSAGE: &'static str = "Missing required parameter: q";

pub const MISSING_ID_MESSAGE: &'static str = "Missing required parameter: id";

/// The member of a provider reply that marks it as an error.
pub const ERROR_KEY: &'static str = "error";

pub const CODE_KEY: &'static str = "code";

pub const MESSAGE_KEY: &'static str = "message";

/// The reply to a request that asks for a forecast.
pub open spec fn forecast_rejection(id: Seq<char>, forecast: Option<Seq<char>>) -> WeatherEnvelopeView {
    WeatherEnvelopeView {
        status: false,
        error: ErrorView::Gateway {
            code: FORECAST_UNSUPPORTED_CODE,
            message: FORECAST_UNSUPPORTED_MESSAGE@,
        },
        id,
        forecast,
        data: Payload::Empty,
    }
}

/// The reply to a current-conditions request whose provider failed.
pub open spec fn weather_upstream_failure(
    id: Seq<char>,
    forecast: Option<Seq<char>>,
) -> WeatherEnvelopeView {
    WeatherEnvelopeView {
        status: false,
        error: ErrorView::Gateway { code: UPSTREAM_FAILURE_CODE, message: UPSTREAM_FAILURE_MESSAGE@ },
        id,
        forecast,
        data: Payload::Empty,
    }
}

/// The reply to a current-conditions request, given the provider's parsed
/// document: the provider's own error where the document has a top-level
/// error member, else the document itself.
pub open spec fn weather_from_document(
    id: Seq<char>,
    forecast: Option<Seq<char>>,
    doc: serde_json::Value,
) -> WeatherEnvelopeView {
    match json_member(doc, ERROR_KEY@) {
        Some(e) => WeatherEnvelopeView {
            status: false,
            error: ErrorView::Provider {
                code: json_member(e, CODE_KEY@),
                message: json_member(e, MESSAGE_KEY@),
            },
            id,
            forecast,
            data: Payload::Empty,
        },
        None => WeatherEnvelopeView {
            status: true,
            error: ErrorView::Gateway { code: OK_CODE, message: OK_MESSAGE@ },
            id,
            forecast,
            data: Payload::Document(doc),
        },
    }
}

/// The reply to a current-conditions request, given the body of the
/// provider's answer (`None` where none came). A forecast request, and one with
/// an empty identifier, get their reply without the answer being read.
pub open spec fn weather_reply(
    id: Seq<char>,
    forecast: Option<Seq<char>>,
    body: Option<Seq<char>>,
) -> WeatherEnvelopeView {
    if forecast.is_some() {
        forecast_rejection(id, forecast)
    } else if id.len() == 0 {
        WeatherEnvelopeView {
            status: false,
            error: ErrorView::Gateway { code: MISSING_PARAMETER_CODE, message: MISSING_ID_MESSAGE@ },
            id,
            forecast,
            data: Payload::Empty,
        }
    } else {
        match body {
            None => weather_upstream_failure(id, forecast),
            Some(text) => match parsed_json(text) {
                None => weather_upstream_failure(id, forecast),
                Some(doc) => weather_from_document(id, forecast, doc),
            },
        }
    }
}

/// The reply to a location search, given the body of the provider's answer
/// (`None` where none came). A search with empty text gets its reply without
/// the answer being read.
pub open spec fn search_reply(q: Seq<char>, limit: Option<i32>, body: Option<Seq<char>>) -> SearchEnvelopeView {
    let doc = match body {
        Some(text) => parsed_json(text),
        None => None,
    };
    let (status, error, data) = if q.len() == 0 {
        (
            false,
            Some(ErrorView::Gateway { code: MISSING_PARAMETER_CODE, message: MISSING_QUERY_MESSAGE@ }),
            Payload::Empty,
        )
    } else {
        match doc {
            Some(doc) => (true, None, Payload::Document(doc)),
            None => (
                false,
                Some(ErrorView::Gateway { code: UPSTREAM_FAILURE_CODE, message: UPSTREAM_FAILURE_MESSAGE@ }),
                Payload::Empty,
            ),
        }
    };
    SearchEnvelopeView { status, error, query: q, limit: limit_or_default(limit), data }
}

/// The reply to the liveness endpoint.
pub fn index() -> (r: RootEnvelope)
    ensures
        r.status,
{
    RootEnvelope { status: true }
}

fn gateway_error(code: u16, message: &str) -> (r: ErrorDetail)
    ensures
        r@ == (ErrorView::Gateway { code, message: message@ }),
{
    ErrorDetail::Gateway { code, message: String::from_str(message) }
}

/// Builds the reply to a current-conditions request from the provider's
/// parsed document.
pub fn weather_envelope_from_document(query: WeatherDataQuery, doc: serde_json::Value) -> (r:
    WeatherEnvelope)
    ensures
        r@ == weather_from_document(query.id@, opt_text(query.forecast), doc),
{
    match member(&doc, ERROR_KEY) {
        Some(e) => {
            let code = member(&e, CODE_KEY);
            let message = member(&e, MESSAGE_KEY);
            WeatherEnvelope {
                status: false,
                error: ErrorDetail::Provider { code, message },
                id: query.id,
                forecast: query.forecast,
                data: Payload::Empty,
            }
        },
        None => WeatherEnvelope {
            status: true,
            error: gateway_error(OK_CODE, OK_MESSAGE),
            id: query.id,
            forecast: query.forecast,
            data: Payload::Document(doc),
        },
    }
}

/// Builds the reply to a current-conditions request. `body` is the text of
/// the provider's answer, `None` where the provider could not be reached; it
/// is not read when the request asks for a forecast or has an empty
/// identifier.
pub fn weather_response(query: WeatherDataQuery, body: Option<String>) -> (r: WeatherEnvelope)
    ensures
        r@ == weather_reply(query.id@, opt_text(query.forecast), opt_text(body)),
{
    if query.forecast.is_some() {
        return WeatherEnvelope {
            status: false,
            error: gateway_error(FORECAST_UNSUPPORTED_CODE, FORECAST_UNSUPPORTED_MESSAGE),
            id: query.id,
            forecast: query.forecast,
            data: Payload::Empty,
        };
    }
    if query.id.as_str().is_empty() {
        return WeatherEnvelope {
            status: false,
            error: gateway_error(MISSING_PARAMETER_CODE, MISSING_ID_MESSAGE),
            id: query.id,
            forecast: query.forecast,
            data: Payload::Empty,
        };
    }
    let doc = match body {
        Some(text) => parse_json(text.as_str()),
        None => None,
    };
    match doc {
        Some(doc) => weather_envelope_from_document(query, doc),
        None => WeatherEnvelope {
            status: false,
            error: gateway_error(UPSTREAM_FAILURE_CODE, UPSTREAM_FAILURE_MESSAGE),
            id: query.id,
            forecast: query.forecast,
            data: Payload::Empty,
        },
    }
}

/// Builds the reply to a location search. `body` is the text of the
/// provider's answer, `None` where the provider could not be reached; it is
/// not read when the search text is empty.
pub fn search_response(query: WeatherLocationQuery, body: Option<String>) -> (r: SearchEnvelope)
    ensures
        r@ == search_reply(query.q@, query.limit, opt_text(body)),
        query.limit.is_none() ==> r.limit == 10,
        forall|n: i32| query.limit == Some(n) ==> r.limit == n,
{
    let limit = query.effective_limit();
    if query.q.as_str().is_empty() {
        return SearchEnvelope {
            status: false,
            error: Some(gateway_error(MISSING_PARAMETER_CODE, MISSING_QUERY_MESSAGE)),
            query: query.q,
            limit,
            data: Payload::Empty,
        };
    }
    let doc = match body {
        Some(text) => parse_json(text.as_str()),
        None => None,
    };
    match doc {
        Some(doc) => SearchEnvelope {
            status: true,
            error: None,
            query: query.q,
            limit,
            data: Payload::Document(doc),
        },
        None => SearchEnvelope {
            status: false,
            error: Some(gateway_error(UPSTREAM_FAILURE_CODE, UPSTREAM_FAILURE_MESSAGE)),
            query: query.q,
            limit,
            data: Payload::Empty,
        },
    }
}

/// The provider request that a location search makes with the API key `key`,
/// or `None` where the search text is empty and the provider is not to be
/// called.
pub fn search_plan(query: &WeatherLocationQuery, key: &str) -> (r: Option<OutboundRequest>)
    ensures
        r.is_none() == (query.q@.len() == 0),
        r matches Some(req) ==> req@ == search_request_of(key@, query.q@, query.limit),
{
    if query.q.as_str().is_empty() {
        None
    } else {
        Some(search_request(query, key))
    }
}

/// The provider request that a current-conditions lookup makes with the API
/// key `key`, or `None` where the request asks for a forecast or has an empty
/// identifier, and the provider is not to be called.
pub fn weather_plan(query: &WeatherDataQuery, key: &str) -> (r: Option<OutboundRequest>)
    ensures
        r.is_none() == (query.forecast.is_some() || query.id@.len() == 0),
        r matches Some(req) ==> req@ == current_request_of(key@, query.id@),
{
    if query.wants_forecast() || query.id.as_str().is_empty() {
        None
    } else {
        Some(current_request(query, key))
    }
}

} // verus!
