use yunxi_agent::agent::AgentError;
use yunxi_agent::provider::ProviderTransportRequest;
use yunxi_agent::transport::{checked_request_headers, provider_transport_error, TransportFailure};

fn request(method: &str, headers: &[(&str, &str)]) -> ProviderTransportRequest {
    ProviderTransportRequest {
        method: method.to_string(),
        url: "https://api.example.test/v1/chat/completions".to_string(),
        headers: headers.iter().map(|(n, v)| (n.to_string(), v.to_string())).collect(),
        body: "{}".to_string(),
        stream: false,
        timeout_millis: Some(30_000),
    }
}

fn execution_message(error: AgentError) -> String {
    match error {
        AgentError::Execution { message } => message,
        other => panic!("expected an execution error, got {other:?}"),
    }
}

#[test]
fn only_post_requests_are_sent() {
    let error = checked_request_headers(&request("GET", &[])).unwrap_err();
    assert_eq!(execution_message(error), "unsupported provider transport method GET");
}

#[test]
fn header_names_go_out_lowercased() {
    let headers = checked_request_headers(&request(
        "POST",
        &[("Authorization", "Bearer token"), ("Content-Type", "application/json"), ("X-Custom_Trace", "a b")],
    ))
    .unwrap();
    assert_eq!(
        headers,
        vec![
            ("authorization".to_string(), "Bearer token".to_string()),
            ("content-type".to_string(), "application/json".to_string()),
            ("x-custom_trace".to_string(), "a b".to_string()),
        ]
    );
}

#[test]
fn a_name_with_a_space_is_refused() {
    let error = checked_request_headers(&request("POST", &[("Bad Header", "x")])).unwrap_err();
    assert_eq!(
        execution_message(error),
        "invalid provider header name Bad Header: invalid HTTP header name"
    );
}

#[test]
fn an_empty_name_is_refused() {
    let error = checked_request_headers(&request("POST", &[("", "x")])).unwrap_err();
    assert_eq!(execution_message(error), "invalid provider header name : invalid HTTP header name");
}

#[test]
fn a_value_with_a_line_break_is_refused_under_its_lowercased_name() {
    let error =
        checked_request_headers(&request("POST", &[("Accept", "json"), ("X-Test", "a\nb")])).unwrap_err();
    assert_eq!(
        execution_message(error),
        "invalid provider header value for x-test: failed to parse header value"
    );
}

#[test]
fn the_first_invalid_header_is_reported() {
    let error = checked_request_headers(&request("POST", &[("X-One", "\u{7f}"), ("Two Words", "ok")]))
        .unwrap_err();
    assert_eq!(
        execution_message(error),
        "invalid provider header value for x-one: failed to parse header value"
    );
}

#[test]
fn values_may_hold_tabs_and_characters_past_ascii() {
    let headers = checked_request_headers(&request("POST", &[("X-Note", "a\tb 中文")])).unwrap();
    assert_eq!(headers, vec![("x-note".to_string(), "a\tb 中文".to_string())]);
}

fn failure(timeout: bool, connect: bool, request: bool, decode: bool) -> TransportFailure {
    TransportFailure { timeout, connect, request, decode, description: "boom".to_string() }
}

#[test]
fn transport_failures_are_classified() {
    let cases = [
        (failure(true, true, false, false), "provider transport Timeout: boom"),
        (failure(false, true, false, false), "provider transport Network: boom"),
        (failure(false, false, true, false), "provider transport Network: boom"),
        (failure(false, false, false, true), "provider transport InvalidResponse: boom"),
        (failure(false, false, false, false), "provider transport Unknown: boom"),
    ];
    for (f, expected) in cases {
        assert_eq!(execution_message(provider_transport_error(&f)), expected);
    }
}
