use vstd::prelude::*;

verus! {

/// The number of locations asked for when a search names no limit.
pub const DEFAULT_LIMIT: i32 = 10;

/// The limit that a search uses: the one given, or the default.
pub open spec fn limit_or_default(limit: Option<i32>) -> i32 {
    match limit {
        Some(n) => n,
        None => DEFAULT_LIMIT,
    }
}

/// Parameters of a location search: free text, and an optional result limit.
pub struct WeatherLocationQuery {
    pub q: String,
    pub limit: Option<i32>,
}

/// Parameters of a current-conditions request: a location identifier, and an
/// optional forecast selector that the gateway does not serve yet.
pub struct WeatherDataQuery {
    pub id: String,
    pub forecast: Option<String>,
}

impl WeatherLocationQuery {
    pub fn new(q: String, limit: Option<i32>) -> (r: Self)
        ensures
            r.q == q,
            r.limit == limit,
    {
        WeatherLocationQuery { q, limit }
    }

    /// The limit that this search uses.
    pub fn effective_limit(&self) -> (r: i32)
        ensures
            r == limit_or_default(self.limit),
            self.limit.is_none() ==> r == 10,
    {
        match self.limit {
            Some(n) => n,
            None => DEFAULT_LIMIT,
        }
    }
}

impl WeatherDataQuery {
    pub fn new(id: String, forecast: Option<String>) -> (r: Self)
        ensures
            r.id == id,
            r.forecast == forecast,
    {
        WeatherDataQuery { id, forecast }
    }

    /// Whether the request asks for a forecast, with any value, empty included.
    pub fn wants_forecast(&self) -> (r: bool)
        ensures
            r == self.forecast.is_some(),
    {
        self.forecast.is_some()
    }
}

} // verus!
