use vstd::prelude::*;

verus! {

/// An error as an envelope reports it.
pub enum ErrorDetail {
    /// A code and a message that the gateway decided itself.
    Gateway { code: u16, message: String },
    /// The provider's own code and message, each `None` where the provider's
    /// error object lacks it.
    Provider { code: Option<serde_json::Value>, message: Option<serde_json::Value> },
}

/// The model of an [`ErrorDetail`].
pub enum ErrorView {
    Gateway { code: u16, message: Seq<char> },
    Provider { code: Option<serde_json::Value>, message: Option<serde_json::Value> },
}

impl View for ErrorDetail {
    type V = ErrorView;

    open spec fn view(&self) -> ErrorView {
        match self {
            ErrorDetail::Gateway { code, message } => ErrorView::Gateway {
                code: *code,
                message: message@,
            },
            ErrorDetail::Provider { code, message } => ErrorView::Provider {
                code: *code,
                message: *message,
            },
        }
    }
}

/// The `data` member of an envelope: an empty list, or the provider's document.
pub enum Payload {
    Empty,
    Document(serde_json::Value),
}

/// The reply to a location search.
pub struct SearchEnvelope {
    pub status: bool,
    pub error: Option<ErrorDetail>,
    pub query: String,
    pub limit: i32,
    pub data: Payload,
}

/// The model of a [`SearchEnvelope`].
pub struct SearchEnvelopeView {
    pub status: bool,
    pub error: Option<ErrorView>,
    pub query: Seq<char>,
    pub limit: i32,
    pub data: Payload,
}

impl View for SearchEnvelope {
    type V = SearchEnvelopeView;

    open spec fn view(&self) -> SearchEnvelopeView {
        SearchEnvelopeView {
            status: self.status,
            error: match self.error {
                Some(e) => Some(e@),
                None => None,
            },
            query: self.query@,
            limit: self.limit,
            data: self.data,
        }
    }
}

/// The reply to a current-conditions request; `id` and `forecast` echo the
/// request.
pub struct WeatherEnvelope {
    pub status: bool,
    pub error: ErrorDetail,
    pub id: String,
    pub forecast: Option<String>,
    pub data: Payload,
}

/// The model of a [`WeatherEnvelope`].
pub struct WeatherEnvelopeView {
    pub status: bool,
    pub error: ErrorView,
    pub id: Seq<char>,
    pub forecast: Option<Seq<char>>,
    pub data: Payload,
}

/// The characters of an optional text.
pub open spec fn opt_text(t: Option<String>) -> Option<Seq<char>> {
    match t {
        Some(s) => Some(s@),
        None => None,
    }
}

impl View for WeatherEnvelope {
    type V = WeatherEnvelopeView;

    open spec fn view(&self) -> WeatherEnvelopeView {
        WeatherEnvelopeView {
            status: self.status,
            error: self.error@,
            id: self.id@,
            forecast: opt_text(self.forecast),
            data: self.data,
        }
    }
}

/// The reply to the liveness endpoint.
pub struct RootEnvelope {
    pub status: bool,
}

} // verus!
