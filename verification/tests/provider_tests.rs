use ai_chat::provider::check_provider_supports_list_models;
use ai_chat::provider::credential_env_key;
use ai_chat::provider::get_provider_capabilities_info;
use ai_chat::provider::AiProvider;
use ai_chat::provider::WireFamily;
use ai_chat::client::AiChatClient;
use ai_chat::options::quick_chat_options;

fn fixed_providers() -> Vec<AiProvider> {
    vec![
        AiProvider::OpenAI,
        AiProvider::Anthropic,
        AiProvider::Cohere,
        AiProvider::Gemini,
        AiProvider::Groq,
        AiProvider::Ollama,
        AiProvider::Xai,
        AiProvider::DeepSeek,
    ]
}

#[test]
fn capability_table_matches_the_fixed_table() {
    let expected = vec![
        (AiProvider::OpenAI, true, true),
        (AiProvider::Anthropic, false, false),
        (AiProvider::Cohere, false, false),
        (AiProvider::Gemini, false, false),
        (AiProvider::Groq, false, false),
        (AiProvider::Ollama, true, true),
        (AiProvider::Xai, false, false),
        (AiProvider::DeepSeek, true, true),
    ];
    for (provider, listing, custom_url) in expected {
        let caps = get_provider_capabilities_info(provider.clone());
        assert_eq!(caps.supports_list_models, listing);
        assert_eq!(caps.supports_custom_base_url, custom_url);
        assert!(!caps.description.is_empty());
        assert_eq!(check_provider_supports_list_models(provider), listing);
    }
}

#[test]
fn capability_table_is_deterministic() {
    for provider in fixed_providers() {
        let a = get_provider_capabilities_info(provider.clone());
        let b = get_provider_capabilities_info(provider);
        assert_eq!(a, b);
    }
}

#[test]
fn custom_provider_reports_itself_by_name() {
    let caps = get_provider_capabilities_info(AiProvider::Custom {
        name: "moonshot".to_string(),
    });
    assert!(caps.supports_list_models);
    assert!(caps.supports_custom_base_url);
    assert!(caps.description.contains("moonshot"));
    assert!(check_provider_supports_list_models(AiProvider::Custom {
        name: "anything".to_string(),
    }));
}

#[test]
fn credential_env_keys_match_the_registry() {
    assert_eq!(credential_env_key(&AiProvider::OpenAI), "OPENAI_API_KEY");
    assert_eq!(credential_env_key(&AiProvider::Anthropic), "ANTHROPIC_API_KEY");
    assert_eq!(credential_env_key(&AiProvider::Cohere), "COHERE_API_KEY");
    assert_eq!(credential_env_key(&AiProvider::Gemini), "GEMINI_API_KEY");
    assert_eq!(credential_env_key(&AiProvider::Groq), "GROQ_API_KEY");
    assert_eq!(credential_env_key(&AiProvider::Ollama), "");
    assert_eq!(credential_env_key(&AiProvider::Xai), "XAI_API_KEY");
    assert_eq!(credential_env_key(&AiProvider::DeepSeek), "DEEPSEEK_API_KEY");
    assert_eq!(
        credential_env_key(&AiProvider::Custom { name: "x".to_string() }),
        "CUSTOM_API_KEY"
    );
}

#[test]
fn adapter_kind_maps_deepseek_and_custom_to_openai() {
    let cases = vec![
        (AiProvider::OpenAI, WireFamily::OpenAi),
        (AiProvider::Anthropic, WireFamily::Anthropic),
        (AiProvider::Cohere, WireFamily::Cohere),
        (AiProvider::Gemini, WireFamily::Gemini),
        (AiProvider::Groq, WireFamily::Groq),
        (AiProvider::Ollama, WireFamily::Ollama),
        (AiProvider::Xai, WireFamily::Xai),
        (AiProvider::DeepSeek, WireFamily::OpenAi),
        (AiProvider::Custom { name: "x".to_string() }, WireFamily::OpenAi),
    ];
    for (provider, family) in cases {
        let client = AiChatClient::new(
            provider,
            quick_chat_options("m".to_string(), "k".to_string()),
        );
        assert_eq!(client.get_adapter_kind(), family);
    }
}

#[test]
fn default_base_urls() {
    let openai = AiChatClient::new(
        AiProvider::OpenAI,
        quick_chat_options("m".to_string(), "k".to_string()),
    );
    let deepseek = AiChatClient::new(
        AiProvider::DeepSeek,
        quick_chat_options("m".to_string(), "k".to_string()),
    );
    let groq = AiChatClient::new(
        AiProvider::Groq,
        quick_chat_options("m".to_string(), "k".to_string()),
    );
    assert_eq!(openai.get_default_base_url(), "https://api.openai.com/v1/");
    assert_eq!(deepseek.get_default_base_url(), "https://api.deepseek.com/v1/");
    assert_eq!(groq.get_default_base_url(), "https://api.openai.com/v1/");
}
