use yunxi_agent::agent::{AgentConfig, AgentError, AgentInput};
use yunxi_agent::json::{get, index, text_of, to_json_text, JsonValue};
use yunxi_agent::protocol::{ThreadId, TurnId};
use yunxi_agent::provider::{
    FixtureTransport, OpenAiCompatibleProvider, OpenAiTransportProvider, ProviderAuth,
    ProviderConfig, ProviderMessage, ProviderRequest, ProviderTransportRequest,
    ProviderTransportResponse,
};
use yunxi_agent::request::{
    build_openai_request_json, build_openai_stream_request_json, build_openai_transport_request,
    completion_from_transport, ProviderBootstrap, ProviderEnvironment,
};

fn no_env() -> ProviderEnvironment {
    ProviderEnvironment {
        agent_model: None,
        provider_base_url: None,
        openai_base_url: None,
        provider_stream: None,
        provider_api_key: None,
        provider_api_key_env: None,
    }
}

fn missing() -> Result<String, String> {
    Err("environment variable not found".to_string())
}

#[test]
fn openai_request_json_uses_yunxi_provider_messages() {
    let request = ProviderRequest::new(
        AgentConfig::new(".").with_model("yunxi-model"),
        AgentInput::text("explain this project"),
    );

    let json = build_openai_request_json(
        &ProviderConfig::openai_compatible("fallback-model"),
        &request,
        Vec::new(),
    );

    assert_eq!(text_of(get(&json, "model")), Some("yunxi-model"));
    let first = index(get(&json, "messages"), 0);
    assert_eq!(text_of(first.and_then(|m| get(m, "role"))), Some("user"));
    assert_eq!(
        text_of(first.and_then(|m| get(m, "content"))),
        Some("explain this project")
    );
}

#[test]
fn request_body_text_lists_members_in_name_order() {
    let request = ProviderRequest::with_messages(
        AgentConfig::new("."),
        AgentInput::text("hi"),
        vec![ProviderMessage::system("be brief"), ProviderMessage::user("hi")],
    );
    let tools = vec![JsonValue::Str("shell".to_string())];
    let body = build_openai_request_json(
        &ProviderConfig::openai_compatible("m1"),
        &request,
        tools,
    );
    assert_eq!(
        to_json_text(&body),
        "{\"messages\":[{\"content\":\"be brief\",\"role\":\"system\"},{\"content\":\"hi\",\"role\":\"user\"}],\"model\":\"m1\",\"parallel_tool_calls\":true,\"tools\":[\"shell\"]}"
    );
}

#[test]
fn stream_body_adds_stream_flags() {
    let request = ProviderRequest::new(AgentConfig::new("."), AgentInput::text("go"));
    let mut config = ProviderConfig::openai_compatible("m2");
    config.capabilities.tools = false;
    config.capabilities.parallel_tool_calls = false;
    let body = build_openai_stream_request_json(&config, &request, Vec::new());
    assert_eq!(
        to_json_text(&body),
        "{\"messages\":[{\"content\":\"go\",\"role\":\"user\"}],\"model\":\"m2\",\"stream\":true,\"stream_options\":{\"include_usage\":true}}"
    );
    config.capabilities.stream_usage = false;
    let body = build_openai_stream_request_json(&config, &request, Vec::new());
    assert_eq!(
        to_json_text(&body),
        "{\"messages\":[{\"content\":\"go\",\"role\":\"user\"}],\"model\":\"m2\",\"stream\":true}"
    );
}

#[test]
fn transport_request_trims_base_url_and_sets_headers() {
    let request = ProviderRequest::new(AgentConfig::new("."), AgentInput::text("go"));
    let config = ProviderConfig::openai_compatible("m").with_base_url("https://example.test/v1//");
    let built = build_openai_transport_request(
        &config,
        &ProviderAuth::ApiKey("k-1".to_string()),
        &request,
        true,
        Vec::new(),
        missing(),
    )
    .expect("request");
    assert_eq!(built.method, "POST");
    assert_eq!(built.url, "https://example.test/v1/chat/completions");
    assert!(built.stream);
    assert_eq!(built.timeout_millis, Some(120_000));
    assert_eq!(
        built.headers,
        vec![
            ("authorization".to_string(), "Bearer k-1".to_string()),
            ("content-type".to_string(), "application/json".to_string())
        ]
    );
    assert!(built.body.contains("\"stream\":true"));

    let unauthenticated = build_openai_transport_request(
        &config,
        &ProviderAuth::NoAuth,
        &request,
        false,
        Vec::new(),
        missing(),
    )
    .expect("request");
    assert_eq!(
        unauthenticated.headers,
        vec![("content-type".to_string(), "application/json".to_string())]
    );
    assert!(!unauthenticated.stream);
}

#[test]
fn missing_auth_variable_is_an_execution_error() {
    let request = ProviderRequest::new(AgentConfig::new("."), AgentInput::text("go"));
    let result = build_openai_transport_request(
        &ProviderConfig::openai_compatible("m"),
        &ProviderAuth::EnvVar("MY_KEY".to_string()),
        &request,
        false,
        Vec::new(),
        missing(),
    );
    assert_eq!(
        result,
        Err(AgentError::Execution {
            message: "provider auth environment variable MY_KEY is missing: environment variable not found"
                .to_string()
        })
    );
    let auth = ProviderAuth::EnvVar("MY_KEY".to_string());
    assert_eq!(auth.env_var_name(), Some("MY_KEY"));
    assert_eq!(auth.resolve(Ok("v".to_string())), Ok(Some("v".to_string())));
    assert_eq!(ProviderAuth::NoAuth.resolve(Ok("v".to_string())), Ok(None));
}

#[test]
fn bearer_auth_replaces_an_existing_header() {
    let request = ProviderTransportRequest::post_json("u", "{}".to_string())
        .with_bearer_auth("a")
        .with_bearer_auth("b");
    assert_eq!(
        request.headers,
        vec![("authorization".to_string(), "Bearer b".to_string())]
    );
}

#[test]
fn provider_config_reads_environment_fallbacks() {
    let config = AgentConfig::new(".");
    let defaults = ProviderConfig::from_agent_config(&config, &no_env());
    assert_eq!(defaults.model, "gpt-4.1");
    assert_eq!(defaults.base_url, "https://api.openai.com/v1");
    assert!(defaults.stream);

    let mut env = no_env();
    env.agent_model = Some("env-model".to_string());
    env.openai_base_url = Some("https://openai.example".to_string());
    env.provider_stream = Some("False".to_string());
    let from_env = ProviderConfig::from_agent_config(&config, &env);
    assert_eq!(from_env.model, "env-model");
    assert_eq!(from_env.base_url, "https://openai.example");
    assert!(!from_env.stream);

    env.provider_base_url = Some("https://yunxi.example".to_string());
    env.provider_stream = Some("no".to_string());
    let with_model = ProviderConfig::from_agent_config(&config.clone().with_model("own"), &env);
    assert_eq!(with_model.model, "own");
    assert_eq!(with_model.base_url, "https://yunxi.example");
    assert!(with_model.stream);
}

#[test]
fn bootstrap_prefers_explicit_key_then_named_variable() {
    let config = AgentConfig::new(".");
    let mut env = no_env();
    assert_eq!(
        ProviderBootstrap::from_agent_config(&config, &env).auth,
        ProviderAuth::EnvVar("OPENAI_API_KEY".to_string())
    );
    env.provider_api_key_env = Some("DEEPSEEK_API_KEY".to_string());
    assert_eq!(
        ProviderBootstrap::from_agent_config(&config, &env).auth,
        ProviderAuth::EnvVar("DEEPSEEK_API_KEY".to_string())
    );
    env.provider_api_key = Some("k".to_string());
    assert_eq!(
        ProviderBootstrap::from_agent_config(&config, &env).auth,
        ProviderAuth::ApiKey("k".to_string())
    );
}

#[test]
fn openai_compatible_provider_can_use_fixture_response() {
    let provider = OpenAiCompatibleProvider::new(
        ProviderConfig::openai_compatible("fixture-model"),
        ProviderAuth::NoAuth,
    )
    .with_fixture_response(
        r#"{
          "choices": [
            { "message": { "role": "assistant", "content": "fixture answer" } }
          ]
        }"#,
    );
    let request = ProviderRequest::new(AgentConfig::new("."), AgentInput::text("fixture"));

    let response = provider
        .complete(&request, missing(), Ok(Vec::new()))
        .expect("fixture response");

    assert_eq!(
        response.message.as_ref().map(|message| message.content.as_str()),
        Some("fixture answer")
    );
}

#[test]
fn provider_without_fixture_reports_missing_transport() {
    let provider = OpenAiCompatibleProvider::new(
        ProviderConfig::openai_compatible("m"),
        ProviderAuth::NoAuth,
    );
    let request = ProviderRequest::new(AgentConfig::new("."), AgentInput::text("x"));
    assert_eq!(
        provider.complete(&request, missing(), Ok(Vec::new())),
        Err(AgentError::Execution {
            message: "openai-compatible HTTP transport is not configured in this runtime slice"
                .to_string()
        })
    );
    let registry_error = AgentError::Execution {
        message: "registry".to_string(),
    };
    assert_eq!(
        provider.complete(&request, missing(), Err(registry_error.clone())),
        Err(registry_error)
    );
}

#[test]
fn fixture_stream_yields_events_or_replays_response() {
    let request = ProviderRequest::new(AgentConfig::new("."), AgentInput::text("x"));
    let streamed = OpenAiCompatibleProvider::new(
        ProviderConfig::openai_compatible("m"),
        ProviderAuth::NoAuth,
    )
    .with_fixture_response("  data: {\"choices\":[{\"delta\":{\"content\":\"Hi\"}}]}\ndata: [DONE]\n");
    let stream = streamed
        .stream(
            &request,
            ThreadId("t".to_string()),
            TurnId("u".to_string()),
            missing(),
            Ok(Vec::new()),
        )
        .expect("stream");
    assert!(stream.final_response.is_none());
    assert!(!stream.events.is_empty());

    let replayed = OpenAiCompatibleProvider::new(
        ProviderConfig::openai_compatible("m"),
        ProviderAuth::NoAuth,
    )
    .with_fixture_response("{\"choices\":[{\"message\":{\"content\":\"done\"}}]}");
    let stream = replayed
        .stream(
            &request,
            ThreadId("t".to_string()),
            TurnId("u".to_string()),
            missing(),
            Ok(Vec::new()),
        )
        .expect("stream");
    assert_eq!(
        stream
            .final_response
            .as_ref()
            .and_then(|r| r.message.as_ref())
            .map(|m| m.content.as_str()),
        Some("done")
    );
    assert_eq!(stream.events.len(), 3);
}

#[test]
fn transport_failure_status_is_reported_with_its_class() {
    let result = completion_from_transport(Ok(ProviderTransportResponse {
        status: 503,
        body: "busy".to_string(),
    }));
    assert_eq!(
        result,
        Err(AgentError::Execution {
            message: "provider transport returned HTTP 503 (Server)".to_string()
        })
    );
}

#[test]
fn transport_provider_reads_fixture_transport_answer() {
    let provider = OpenAiTransportProvider::new(
        ProviderConfig::openai_compatible("m"),
        ProviderAuth::ApiKey("k".to_string()),
        FixtureTransport::new(200, "{\"choices\":[{\"message\":{\"content\":\"over http\"}}]}"),
    );
    let request = ProviderRequest::new(AgentConfig::new("."), AgentInput::text("x"));
    let response = provider
        .complete(&request, missing(), Ok(Vec::new()))
        .expect("response");
    assert_eq!(
        response.message.map(|m| m.content),
        Some("over http".to_string())
    );
    let failing = OpenAiTransportProvider::new(
        ProviderConfig::openai_compatible("m"),
        ProviderAuth::NoAuth,
        FixtureTransport::new(401, "denied"),
    );
    assert_eq!(
        failing.complete(&request, missing(), Ok(Vec::new())),
        Err(AgentError::Execution {
            message: "provider transport returned HTTP 401 (Auth)".to_string()
        })
    );
}
