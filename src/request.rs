use vstd::prelude::*;
use vstd::string::*;
use crate::decimal::{decimal_of, format_decimal};
use crate::query::{limit_or_default, WeatherDataQuery, WeatherLocationQuery};

verus! {

pub const SEARCH_URL: &'static str = "https://api.weatherapi.com/v1/search.json";

pub const CURRENT_URL: &'static str = "https://api.weatherapi.com/v1/current.json";

/// A GET request to the provider: an address and its query parameters, in
/// order.
pub struct OutboundRequest {
    pub url: String,
    pub params: Vec<(String, String)>,
}

/// The model of an [`OutboundRequest`].
pub struct OutboundRequestView {
    pub url: Seq<char>,
    pub params: Seq<(Seq<char>, Seq<char>)>,
}

impl View for OutboundRequest {
    type V = OutboundRequestView;

    open spec fn view(&self) -> OutboundRequestView {
        OutboundRequestView {
            url: self.url@,
            params: self.params@.map_values(|p: (String, String)| (p.0@, p.1@)),
        }
    }
}

/// The provider request of a location search.
pub open spec fn search_request_of(key: Seq<char>, q: Seq<char>, limit: Option<i32>) -> OutboundRequestView {
    OutboundRequestView {
        url: SEARCH_URL@,
        params: seq![
            ("key"@, key),
            ("q"@, q),
            ("limit"@, decimal_of(limit_or_default(limit) as int)),
        ],
    }
}

/// The provider request of a current-conditions lookup.
pub open spec fn current_request_of(key: Seq<char>, id: Seq<char>) -> OutboundRequestView {
    OutboundRequestView { url: CURRENT_URL@, params: seq![("key"@, key), ("q"@, id)] }
}

fn param(name: &str, value: String) -> (r: (String, String))
    ensures
        r.0@ == name@,
        r.1@ == value@,
{
    (String::from_str(name), value)
}

/// The provider request that a location search makes with the API key `key`.
pub fn search_request(query: &WeatherLocationQuery, key: &str) -> (r: OutboundRequest)
    ensures
        r@ == search_request_of(key@, query.q@, query.limit),
{
    let mut params: Vec<(String, String)> = Vec::new();
    params.push(param("key", String::from_str(key)));
    params.push(param("q", query.q.clone()));
    params.push(param("limit", format_decimal(query.effective_limit())));
    let r = OutboundRequest { url: String::from_str(SEARCH_URL), params };
    assert(r@.params =~= search_request_of(key@, query.q@, query.limit).params);
    r
}

/// The provider request that a current-conditions lookup makes with the API
/// key `key`.
pub fn current_request(query: &WeatherDataQuery, key: &str) -> (r: OutboundRequest)
    ensures
        r@ == current_request_of(key@, query.id@),
{
    let mut params: Vec<(String, String)> = Vec::new();
    params.push(param("key", String::from_str(key)));
    params.push(param("q", query.id.clone()));
    let r = OutboundRequest { url: String::from_str(CURRENT_URL), params };
    assert(r@.params =~= current_request_of(key@, query.id@).params);
    r
}

} // verus!
