use notes_bot::llm::{
    first_choice_content, parse_finish_reason, FinishReason, LlmError, MistralClient,
    MistralMessage, MistralModelType, MistralRole, ModelChoice, ModelResponse, ModelUsage,
};

fn response_with_choices(choices: Vec<ModelChoice>) -> ModelResponse {
    ModelResponse {
        id: "cmpl-1".to_string(),
        object: "chat.completion".to_string(),
        created: 0,
        model: "mistral-tiny".to_string(),
        choices,
        usage: ModelUsage { prompt_tokens: 1, completion_tokens: 1, total_tokens: 2 },
    }
}

#[test]
fn new_client_uses_the_documented_defaults() {
    let client = MistralClient::new("key");
    assert_eq!(client.api_key, "key");
    assert_eq!(client.api_url, "https://api.mistral.ai/v1/chat/completions");
    assert_eq!(client.model, MistralModelType::Tiny);
    assert_eq!(client.temperature_milli, 700);
    assert_eq!(client.max_tokens, None);
    assert_eq!(client.random_seed, None);
    assert!(client.history.is_empty());
}

#[test]
fn builders_set_exactly_their_field() {
    let client = MistralClient::new("key")
        .with_temperature(500)
        .with_max_tokens(Some(42))
        .with_random_seed(Some(123))
        .with_model(MistralModelType::Medium)
        .with_api_url("https://example.invalid/v1/chat");
    assert_eq!(client.temperature_milli, 500);
    assert_eq!(client.max_tokens, Some(42));
    assert_eq!(client.random_seed, Some(123));
    assert_eq!(client.model, MistralModelType::Medium);
    assert_eq!(client.api_url, "https://example.invalid/v1/chat");
    assert_eq!(client.api_key, "key");
}

#[test]
fn history_builders_append_in_order() {
    let client = MistralClient::new("key")
        .with_system_message("sys")
        .with_user_message("usr")
        .with_assistant_message("ast");
    assert_eq!(client.history.len(), 3);
    assert_eq!(client.history[0].role, MistralRole::System);
    assert_eq!(client.history[1].role, MistralRole::User);
    assert_eq!(client.history[2].role, MistralRole::Assistant);
    assert_eq!(client.history[2].content, "ast");
}

#[test]
fn request_appends_the_new_turn_after_the_history() {
    let client = MistralClient::new("key").with_system_message("sys");
    let request = client.build_request(MistralMessage::user("hello"));
    assert_eq!(request.messages.len(), 2);
    assert_eq!(request.messages[0].role, MistralRole::System);
    assert_eq!(request.messages[1].role, MistralRole::User);
    assert_eq!(request.messages[1].content, "hello");
    assert_eq!(request.api_key, "key");
    assert_eq!(request.temperature_milli, 700);
}

#[test]
fn stateful_bookkeeping_records_and_resets() {
    let mut client = MistralClient::new("key");
    assert_eq!(client.last_response(), None);
    client.record_exchange(MistralMessage::user("q"), MistralMessage::assistant("a"));
    assert_eq!(client.history.len(), 2);
    assert_eq!(client.last_response(), Some("a".to_string()));
    client.reset_chat();
    assert!(client.history.is_empty());
    assert_eq!(client.last_response(), None);
}

#[test]
fn recognized_finish_reasons_decode() {
    assert_eq!(parse_finish_reason("stop"), Some(FinishReason::Stop));
    assert_eq!(parse_finish_reason("length"), Some(FinishReason::Length));
    assert_eq!(parse_finish_reason("model_length"), Some(FinishReason::ModelLength));
    assert_eq!(parse_finish_reason("eos"), None);
    assert_eq!(parse_finish_reason(""), None);
}

#[test]
fn a_response_without_choices_is_a_protocol_failure() {
    let response = response_with_choices(vec![]);
    assert_eq!(first_choice_content(&response), Err(LlmError::Protocol));
}

#[test]
fn the_first_choice_is_the_reply() {
    let response = response_with_choices(vec![
        ModelChoice {
            index: 0,
            message: MistralMessage::assistant("first"),
            finish_reason: FinishReason::Stop,
        },
        ModelChoice {
            index: 1,
            message: MistralMessage::assistant("second"),
            finish_reason: FinishReason::Stop,
        },
    ]);
    assert_eq!(first_choice_content(&response), Ok("first".to_string()));
}

#[test]
fn wire_names_match_the_provider_protocol() {
    assert_eq!(MistralRole::User.api_name(), "user");
    assert_eq!(MistralRole::Assistant.api_name(), "assistant");
    assert_eq!(MistralRole::System.api_name(), "system");
    assert_eq!(MistralModelType::Tiny.api_name(), "mistral-tiny");
    assert_eq!(MistralModelType::Small.api_name(), "mistral-small");
    assert_eq!(MistralModelType::Medium.api_name(), "mistral-medium");
    assert_eq!(MistralModelType::default(), MistralModelType::Tiny);
}
