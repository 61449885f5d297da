use group_chat::providers::{
    plan_request, read_response, role_str, ChatMessage, Dialect, ProviderError, Role,
    ANTHROPIC_URL, ANTHROPIC_VERSION, DEEPSEEK_BASE_URL, DEFAULT_MAX_TOKENS, OPENAI_BASE_URL,
    QWEN_BASE_URL,
};

fn two_messages() -> Vec<ChatMessage> {
    vec![
        ChatMessage { role: Role::User, content: "[User]: hi".to_string() },
        ChatMessage { role: Role::Assistant, content: "hello".to_string() },
    ]
}

#[test]
fn role_names_on_the_wire() {
    assert_eq!(role_str(Role::User), "user");
    assert_eq!(role_str(Role::Assistant), "assistant");
}

#[test]
fn openai_puts_system_prompt_first_and_sends_temperature() {
    let q = plan_request("openai", "gpt-4o", Some("be brief"), &two_messages()).unwrap();
    assert_eq!(q.dialect, Dialect::OpenAiCompatible);
    assert_eq!(q.url, OPENAI_BASE_URL);
    assert_eq!(q.url, "https://api.openai.com/v1/chat/completions");
    assert_eq!(q.model, "gpt-4o");
    assert_eq!(q.messages.len(), 3);
    assert_eq!(q.messages[0].role, "system");
    assert_eq!(q.messages[0].content, "be brief");
    assert_eq!(q.messages[1].role, "user");
    assert_eq!(q.messages[1].content, "[User]: hi");
    assert_eq!(q.messages[2].role, "assistant");
    assert_eq!(q.messages[2].content, "hello");
    assert!(q.system.is_none());
    assert!(q.max_tokens.is_none());
    assert!(q.api_version.is_none());
    assert!(q.send_temperature);
}

#[test]
fn openai_without_system_prompt_sends_only_the_messages() {
    let q = plan_request("openai", "gpt-4o", None, &two_messages()).unwrap();
    assert_eq!(q.messages.len(), 2);
    assert_eq!(q.messages[0].role, "user");
}

#[test]
fn deepseek_and_qwen_share_the_openai_shape() {
    let d = plan_request("deepseek", "deepseek-chat", None, &two_messages()).unwrap();
    assert_eq!(d.dialect, Dialect::OpenAiCompatible);
    assert_eq!(d.url, DEEPSEEK_BASE_URL);
    assert_eq!(d.url, "https://api.deepseek.com/chat/completions");
    let q = plan_request("qwen", "qwen-max", None, &two_messages()).unwrap();
    assert_eq!(q.dialect, Dialect::OpenAiCompatible);
    assert_eq!(q.url, QWEN_BASE_URL);
    assert!(q.url.ends_with("/chat/completions"));
}

#[test]
fn anthropic_has_top_level_system_and_no_temperature() {
    let q = plan_request("anthropic", "sonnet-4", Some("be brief"), &two_messages()).unwrap();
    assert_eq!(q.dialect, Dialect::Anthropic);
    assert_eq!(q.url, ANTHROPIC_URL);
    assert_eq!(q.url, "https://api.anthropic.com/v1/messages");
    assert_eq!(q.api_version, Some(ANTHROPIC_VERSION));
    assert_eq!(ANTHROPIC_VERSION, "2023-06-01");
    assert_eq!(q.messages.len(), 2);
    assert_eq!(q.messages[0].role, "user");
    assert_eq!(q.system.as_deref(), Some("be brief"));
    assert_eq!(q.max_tokens, Some(DEFAULT_MAX_TOKENS));
    assert_eq!(DEFAULT_MAX_TOKENS, 4096);
    assert!(!q.send_temperature);
}

#[test]
fn unknown_provider_is_an_error() {
    match plan_request("mystery", "m", None, &[]) {
        Err(ProviderError::UnknownProvider(p)) => assert_eq!(p, "mystery"),
        other => panic!("unexpected {:?}", other),
    }
    assert!(plan_request("OpenAI", "m", None, &[]).is_err());
}

#[test]
fn error_messages() {
    assert_eq!(ProviderError::Network("timed out".into()).message(), "network error: timed out");
    assert_eq!(
        ProviderError::Http { status: 404, body: "nope".into() }.message(),
        "provider returned HTTP 404: nope"
    );
    assert_eq!(
        ProviderError::Http { status: 0, body: String::new() }.message(),
        "provider returned HTTP 0: "
    );
    assert_eq!(
        ProviderError::Parse("bad".into()).message(),
        "failed to parse provider response: bad"
    );
    assert_eq!(
        ProviderError::UnknownProvider("x".into()).message(),
        "unknown provider: \"x\""
    );
}

#[test]
fn non_success_status_is_http_error_with_raw_body() {
    match read_response(Dialect::OpenAiCompatible, 429, "slow down".into(), Ok(vec!["x".into()])) {
        Err(ProviderError::Http { status, body }) => {
            assert_eq!(status, 429);
            assert_eq!(body, "slow down");
        }
        other => panic!("unexpected {:?}", other),
    }
    assert!(matches!(
        read_response(Dialect::Anthropic, 199, String::new(), Ok(vec![])),
        Err(ProviderError::Http { status: 199, .. })
    ));
    assert!(matches!(
        read_response(Dialect::Anthropic, 300, String::new(), Ok(vec![])),
        Err(ProviderError::Http { status: 300, .. })
    ));
}

#[test]
fn success_takes_the_first_reply() {
    let r = read_response(
        Dialect::OpenAiCompatible,
        200,
        "{}".into(),
        Ok(vec!["first".into(), "second".into()]),
    );
    assert_eq!(r.unwrap(), "first");
    let r = read_response(Dialect::Anthropic, 299, "{}".into(), Ok(vec!["only".into()]));
    assert_eq!(r.unwrap(), "only");
}

#[test]
fn success_without_reply_is_parse_error() {
    match read_response(Dialect::OpenAiCompatible, 200, "{}".into(), Ok(vec![])) {
        Err(ProviderError::Parse(m)) => assert_eq!(m, "response had no choices"),
        other => panic!("unexpected {:?}", other),
    }
    match read_response(Dialect::Anthropic, 200, "{}".into(), Ok(vec![])) {
        Err(ProviderError::Parse(m)) => assert_eq!(m, "response had no content blocks"),
        other => panic!("unexpected {:?}", other),
    }
    match read_response(Dialect::Anthropic, 201, "??".into(), Err("expected value".into())) {
        Err(ProviderError::Parse(m)) => assert_eq!(m, "expected value"),
        other => panic!("unexpected {:?}", other),
    }
}
