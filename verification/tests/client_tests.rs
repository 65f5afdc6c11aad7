use ai_chat::client::create_ai_chat_client;
use ai_chat::client::AiChatClient;
use ai_chat::client::CredentialRouting;
use ai_chat::options::AiChatOptions;
use ai_chat::options::ChatMessage;
use ai_chat::options::ChatRole;
use ai_chat::provider::AiProvider;
use ai_chat::provider::WireFamily;

fn bare_options() -> AiChatOptions {
    AiChatOptions {
        model: "gpt-4".to_string(),
        base_url: None,
        api_key: "k".to_string(),
        temperature_milli: None,
        top_p_milli: None,
        max_tokens: None,
        system_prompt: None,
        stop_sequences: None,
    }
}

#[test]
fn options_object_is_omitted_when_no_sampling_field_is_set() {
    let client = AiChatClient::new(AiProvider::OpenAI, bare_options());
    assert!(client.build_chat_options().is_none());
}

#[test]
fn options_object_carries_exactly_the_fields_that_were_set() {
    let mut options = bare_options();
    options.temperature_milli = Some(700);
    let client = AiChatClient::new(AiProvider::OpenAI, options);
    let o = client.build_chat_options().expect("one field was set");
    assert_eq!(o.temperature_milli, Some(700));
    assert_eq!(o.top_p_milli, None);
    assert_eq!(o.max_tokens, None);
    assert_eq!(o.stop_sequences, None);
    assert!(!o.capture_content);
    assert!(!o.capture_usage);

    let mut options = bare_options();
    options.stop_sequences = Some(vec!["\n".to_string()]);
    options.max_tokens = Some(128);
    let client = AiChatClient::new(AiProvider::OpenAI, options);
    let o = client.build_chat_options().expect("two fields were set");
    assert_eq!(o.temperature_milli, None);
    assert_eq!(o.max_tokens, Some(128));
    assert_eq!(o.stop_sequences, Some(vec!["\n".to_string()]));
}

#[test]
fn streaming_options_force_both_capture_flags() {
    let client = AiChatClient::new(AiProvider::OpenAI, bare_options());
    let o = client.build_chat_options_for_stream().expect("always present for streaming");
    assert!(o.capture_content);
    assert!(o.capture_usage);
    assert_eq!(o.temperature_milli, None);
    assert_eq!(o.max_tokens, None);
}

#[test]
fn request_builder_maps_messages_one_to_one() {
    let mut options = bare_options();
    options.system_prompt = Some("be brief".to_string());
    let client = AiChatClient::new(AiProvider::OpenAI, options);
    let messages = vec![
        ChatMessage { role: ChatRole::System, content: "sys".to_string() },
        ChatMessage { role: ChatRole::User, content: "hi".to_string() },
        ChatMessage { role: ChatRole::Assistant, content: "hello".to_string() },
    ];
    let request = client.build_chat_request(messages.clone());
    assert_eq!(request.system, Some("be brief".to_string()));
    assert_eq!(request.messages, messages);
}

#[test]
fn a_custom_base_url_routes_the_credential_explicitly() {
    let mut options = bare_options();
    options.base_url = Some("https://api.moonshot.cn/v1".to_string());
    let client = AiChatClient::new(
        AiProvider::Custom { name: "moonshot".to_string() },
        options,
    );
    match client.credential_routing() {
        CredentialRouting::Explicit { base_url, api_key, family } => {
            assert_eq!(base_url, "https://api.moonshot.cn/v1/");
            assert_eq!(api_key, "k");
            assert_eq!(family, WireFamily::OpenAi);
        },
        CredentialRouting::Environment { .. } => {
            panic!("an explicit endpoint must carry the credential with it")
        },
    }
}

#[test]
fn no_base_url_routes_the_credential_through_the_environment_slot() {
    let client = AiChatClient::new(AiProvider::Anthropic, bare_options());
    match client.credential_routing() {
        CredentialRouting::Environment { env_key, api_key } => {
            assert_eq!(env_key, "ANTHROPIC_API_KEY");
            assert_eq!(api_key, "k");
        },
        CredentialRouting::Explicit { .. } => {
            panic!("without a custom endpoint the environment slot is used")
        },
    }
}

#[test]
fn a_client_is_the_pair_it_was_built_from() {
    let client = create_ai_chat_client(AiProvider::DeepSeek, bare_options());
    assert_eq!(client.options.model, "gpt-4");
    assert!(client.supports_list_models());
    assert!(client.supports_openai_compatible_api());
    let caps = client.get_provider_capabilities();
    assert!(caps.supports_list_models);
}
