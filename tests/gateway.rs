use serde_json::Value;
use weather_gateway::decimal::format_decimal;
use weather_gateway::envelope::{ErrorDetail, Payload};
use weather_gateway::gateway::{
    index, search_plan, search_response, weather_envelope_from_document, weather_plan,
    weather_response,
};
use weather_gateway::query::{WeatherDataQuery, WeatherLocationQuery};
use weather_gateway::request::{current_request, search_request};

fn doc(text: &str) -> Value {
    serde_json::from_str(text).unwrap()
}

fn pairs(params: &[(String, String)]) -> Vec<(&str, &str)> {
    params.iter().map(|(k, v)| (k.as_str(), v.as_str())).collect()
}

fn gateway_error(e: &ErrorDetail) -> (u16, &str) {
    match e {
        ErrorDetail::Gateway { code, message } => (*code, message.as_str()),
        ErrorDetail::Provider { .. } => panic!("expected an error of the gateway"),
    }
}

#[test]
fn effective_limit_defaults_to_ten() {
    let q = WeatherLocationQuery::new("London".to_string(), None);
    assert_eq!(q.effective_limit(), 10);
}

#[test]
fn effective_limit_keeps_explicit_value() {
    let q = WeatherLocationQuery::new("London".to_string(), Some(3));
    assert_eq!(q.effective_limit(), 3);
    let q = WeatherLocationQuery::new("London".to_string(), Some(0));
    assert_eq!(q.effective_limit(), 0);
}

#[test]
fn decimal_formatting() {
    assert_eq!(format_decimal(0), "0");
    assert_eq!(format_decimal(7), "7");
    assert_eq!(format_decimal(10), "10");
    assert_eq!(format_decimal(-42), "-42");
    assert_eq!(format_decimal(i32::MAX), "2147483647");
    assert_eq!(format_decimal(i32::MIN), "-2147483648");
}

#[test]
fn search_request_with_default_limit() {
    let q = WeatherLocationQuery::new("Paris".to_string(), None);
    let r = search_request(&q, "k123");
    assert_eq!(r.url, "https://api.weatherapi.com/v1/search.json");
    assert_eq!(pairs(&r.params), vec![("key", "k123"), ("q", "Paris"), ("limit", "10")]);
}

#[test]
fn search_request_with_explicit_limit() {
    let q = WeatherLocationQuery::new("San Francisco".to_string(), Some(25));
    let r = search_request(&q, "abc");
    assert_eq!(pairs(&r.params), vec![("key", "abc"), ("q", "San Francisco"), ("limit", "25")]);
}

#[test]
fn current_request_parameters() {
    let q = WeatherDataQuery::new("48.8567,2.3508".to_string(), None);
    let r = current_request(&q, "abc");
    assert_eq!(r.url, "https://api.weatherapi.com/v1/current.json");
    assert_eq!(pairs(&r.params), vec![("key", "abc"), ("q", "48.8567,2.3508")]);
}

#[test]
fn plan_skips_provider_for_forecast() {
    let q = WeatherDataQuery::new("London".to_string(), Some("3".to_string()));
    assert!(weather_plan(&q, "abc").is_none());
    let q = WeatherDataQuery::new("London".to_string(), Some(String::new()));
    assert!(weather_plan(&q, "abc").is_none());
}

#[test]
fn plan_calls_provider_without_forecast() {
    let q = WeatherDataQuery::new("SW1".to_string(), None);
    let r = weather_plan(&q, "abc").unwrap();
    assert_eq!(r.url, "https://api.weatherapi.com/v1/current.json");
    assert_eq!(pairs(&r.params), vec![("key", "abc"), ("q", "SW1")]);
}

#[test]
fn forecast_is_rejected() {
    let q = WeatherDataQuery::new("London".to_string(), Some("yes".to_string()));
    let r = weather_response(q, Some(r#"{"current":{}}"#.to_string()));
    assert!(!r.status);
    assert_eq!(gateway_error(&r.error), (400, "Forecast is not yet supported"));
    assert_eq!(r.id, "London");
    assert_eq!(r.forecast.as_deref(), Some("yes"));
    assert!(matches!(r.data, Payload::Empty));
}

#[test]
fn empty_forecast_is_rejected() {
    let q = WeatherDataQuery::new("London".to_string(), Some(String::new()));
    let r = weather_response(q, None);
    assert!(!r.status);
    assert_eq!(gateway_error(&r.error), (400, "Forecast is not yet supported"));
    assert_eq!(r.forecast.as_deref(), Some(""));
}

#[test]
fn provider_error_is_surfaced() {
    let q = WeatherDataQuery::new("Nowhere".to_string(), None);
    let body = r#"{"error":{"code":1006,"message":"No matching location found."}}"#;
    let r = weather_response(q, Some(body.to_string()));
    assert!(!r.status);
    match &r.error {
        ErrorDetail::Provider { code, message } => {
            assert_eq!(code.as_ref(), Some(&Value::from(1006)));
            assert_eq!(message.as_ref(), Some(&Value::from("No matching location found.")));
        }
        ErrorDetail::Gateway { .. } => panic!("expected the provider's error"),
    }
    assert_eq!(r.id, "Nowhere");
    assert!(r.forecast.is_none());
    assert!(matches!(r.data, Payload::Empty));
}

#[test]
fn provider_error_without_members() {
    let q = WeatherDataQuery::new("X".to_string(), None);
    let r = weather_response(q, Some(r#"{"error":"bad"}"#.to_string()));
    assert!(!r.status);
    match &r.error {
        ErrorDetail::Provider { code, message } => {
            assert!(code.is_none());
            assert!(message.is_none());
        }
        ErrorDetail::Gateway { .. } => panic!("expected the provider's error"),
    }
}

#[test]
fn provider_success_is_passed_through() {
    let q = WeatherDataQuery::new("London".to_string(), None);
    let body = r#"{"location":{"name":"London"},"current":{"temp_c":11}}"#;
    let r = weather_response(q, Some(body.to_string()));
    assert!(r.status);
    assert_eq!(gateway_error(&r.error), (200, "OK"));
    assert_eq!(r.id, "London");
    assert!(r.forecast.is_none());
    match &r.data {
        Payload::Document(d) => assert_eq!(d, &doc(body)),
        Payload::Empty => panic!("expected the provider's document"),
    }
}

#[test]
fn error_text_inside_payload_is_not_an_error() {
    let q = WeatherDataQuery::new("Errorville".to_string(), None);
    let body = r#"{"location":{"name":"Errorville","note":"error"}}"#;
    let r = weather_response(q, Some(body.to_string()));
    assert!(r.status);
    assert_eq!(gateway_error(&r.error), (200, "OK"));
}

#[test]
fn envelope_from_document_directly() {
    let q = WeatherDataQuery::new("Rome".to_string(), None);
    let r = weather_envelope_from_document(q, doc(r#"{"error":{"code":2006,"message":"API key is invalid."}}"#));
    assert!(!r.status);
    match &r.error {
        ErrorDetail::Provider { code, .. } => assert_eq!(code.as_ref(), Some(&Value::from(2006))),
        ErrorDetail::Gateway { .. } => panic!("expected the provider's error"),
    }
}

#[test]
fn unreadable_provider_answer_is_upstream_failure() {
    let q = WeatherDataQuery::new("London".to_string(), None);
    let r = weather_response(q, Some("<html>bad gateway</html>".to_string()));
    assert!(!r.status);
    assert_eq!(gateway_error(&r.error), (502, "Weather provider unavailable"));
    assert!(matches!(r.data, Payload::Empty));
}

#[test]
fn missing_provider_answer_is_upstream_failure() {
    let q = WeatherDataQuery::new("London".to_string(), None);
    let r = weather_response(q, None);
    assert!(!r.status);
    assert_eq!(gateway_error(&r.error), (502, "Weather provider unavailable"));
}

#[test]
fn search_response_default_limit() {
    let q = WeatherLocationQuery::new("Lon".to_string(), None);
    let body = r#"[{"id":2801268,"name":"London"}]"#;
    let r = search_response(q, Some(body.to_string()));
    assert!(r.status);
    assert!(r.error.is_none());
    assert_eq!(r.query, "Lon");
    assert_eq!(r.limit, 10);
    match &r.data {
        Payload::Document(d) => assert_eq!(d, &doc(body)),
        Payload::Empty => panic!("expected the provider's document"),
    }
}

#[test]
fn search_response_explicit_limit() {
    let q = WeatherLocationQuery::new("Lon".to_string(), Some(2));
    let r = search_response(q, Some("[]".to_string()));
    assert!(r.status);
    assert_eq!(r.limit, 2);
}

#[test]
fn search_response_upstream_failure() {
    let q = WeatherLocationQuery::new("Lon".to_string(), Some(4));
    let r = search_response(q, Some("not json".to_string()));
    assert!(!r.status);
    assert_eq!(gateway_error(r.error.as_ref().unwrap()), (502, "Weather provider unavailable"));
    assert_eq!(r.query, "Lon");
    assert_eq!(r.limit, 4);
    assert!(matches!(r.data, Payload::Empty));
    let q = WeatherLocationQuery::new("Lon".to_string(), None);
    let r = search_response(q, None);
    assert!(!r.status);
    assert_eq!(r.limit, 10);
}

#[test]
fn repeated_requests_agree() {
    let body = r#"{"current":{"temp_c":11}}"#;
    let a = weather_response(WeatherDataQuery::new("London".to_string(), None), Some(body.to_string()));
    let b = weather_response(WeatherDataQuery::new("London".to_string(), None), Some(body.to_string()));
    assert_eq!(a.status, b.status);
    assert_eq!(gateway_error(&a.error), gateway_error(&b.error));
    match (&a.data, &b.data) {
        (Payload::Document(x), Payload::Document(y)) => assert_eq!(x, y),
        _ => panic!("expected documents"),
    }
}

#[test]
fn root_is_alive() {
    assert!(index().status);
    assert!(index().status);
}

#[test]
fn plan_skips_provider_for_empty_search() {
    let q = WeatherLocationQuery::new(String::new(), Some(5));
    assert!(search_plan(&q, "abc").is_none());
    let q = WeatherLocationQuery::new("Oslo".to_string(), Some(5));
    let r = search_plan(&q, "abc").unwrap();
    assert_eq!(pairs(&r.params), vec![("key", "abc"), ("q", "Oslo"), ("limit", "5")]);
}

#[test]
fn plan_skips_provider_for_empty_id() {
    let q = WeatherDataQuery::new(String::new(), None);
    assert!(weather_plan(&q, "abc").is_none());
}

#[test]
fn empty_search_is_rejected() {
    let q = WeatherLocationQuery::new(String::new(), None);
    let r = search_response(q, Some("[]".to_string()));
    assert!(!r.status);
    assert_eq!(gateway_error(r.error.as_ref().unwrap()), (400, "Missing required parameter: q"));
    assert_eq!(r.limit, 10);
    assert!(matches!(r.data, Payload::Empty));
}

#[test]
fn empty_id_is_rejected() {
    let q = WeatherDataQuery::new(String::new(), None);
    let r = weather_response(q, Some(r#"{"current":{}}"#.to_string()));
    assert!(!r.status);
    assert_eq!(gateway_error(&r.error), (400, "Missing required parameter: id"));
    assert!(matches!(r.data, Payload::Empty));
}

#[test]
fn forecast_wins_over_empty_id() {
    let q = WeatherDataQuery::new(String::new(), Some("1".to_string()));
    let r = weather_response(q, None);
    assert_eq!(gateway_error(&r.error), (400, "Forecast is not yet supported"));
}
