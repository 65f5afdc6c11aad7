use ai_chat::client::AiChatClient;
use ai_chat::models::filter_model_ids;
use ai_chat::models::filter_models_response;
use ai_chat::models::listing_outcome_response;
use ai_chat::models::models_endpoint_url;
use ai_chat::models::native_listing_response;
use ai_chat::models::plan_discovery;
use ai_chat::models::unsupported_listing_response;
use ai_chat::models::DiscoveryPlan;
use ai_chat::models::FetchOutcome;
use ai_chat::models::OpenAiModel;
use ai_chat::models::OpenAiModelsResponse;
use ai_chat::options::quick_chat_options;
use ai_chat::provider::AiProvider;
use ai_chat::provider::WireFamily;

fn model(id: &str) -> OpenAiModel {
    OpenAiModel { id: id.to_string(), object: None, created: None, owned_by: None }
}

#[test]
fn exclusion_filter_keeps_only_chat_models() {
    let ids = vec![
        "gpt-4".to_string(),
        "whisper-1".to_string(),
        "text-embedding-3-small".to_string(),
    ];
    assert_eq!(filter_model_ids(ids), vec!["gpt-4".to_string()]);
}

#[test]
fn exclusion_filter_is_case_insensitive_and_keeps_order() {
    let ids = vec![
        "gpt-4o".to_string(),
        "WHISPER-large".to_string(),
        "DALL-E-3".to_string(),
        "o1-mini".to_string(),
        "Babbage-002".to_string(),
        "deepseek-chat".to_string(),
    ];
    assert_eq!(
        filter_model_ids(ids),
        vec!["gpt-4o".to_string(), "o1-mini".to_string(), "deepseek-chat".to_string()]
    );
}

#[test]
fn should_include_model_checks_the_lowercase_form() {
    let client = AiChatClient::new(
        AiProvider::OpenAI,
        quick_chat_options("m".to_string(), "k".to_string()),
    );
    assert!(client.should_include_model("gpt-4"));
    assert!(!client.should_include_model("WHISPER-LARGE"));
    assert!(!client.should_include_model("tts-1-hd"));
    assert!(!client.should_include_model("text-moderation-latest"));
    assert!(!client.should_include_model("Curie"));
    assert!(!client.should_include_model("text-davinci-003"));
    assert!(!client.should_include_model("ada"));
}

#[test]
fn listing_response_extracts_and_filters_ids() {
    let response = OpenAiModelsResponse {
        object: Some("list".to_string()),
        data: vec![model("gpt-4"), model("whisper-1"), model("text-embedding-3-small")],
    };
    assert_eq!(filter_models_response(response), vec!["gpt-4".to_string()]);
}

#[test]
fn deepseek_models_url_gains_the_separator() {
    assert_eq!(
        models_endpoint_url("https://api.deepseek.com/v1"),
        "https://api.deepseek.com/v1/models"
    );
    let client = AiChatClient::new(AiProvider::DeepSeek, {
        let mut o = quick_chat_options("m".to_string(), "k".to_string());
        o.base_url = Some("https://api.deepseek.com/v1".to_string());
        o
    });
    assert_eq!(client.resolved_models_url(), "https://api.deepseek.com/v1/models");
}

#[test]
fn models_url_falls_back_to_the_default_endpoint() {
    let client = AiChatClient::new(
        AiProvider::OpenAI,
        quick_chat_options("m".to_string(), "k".to_string()),
    );
    assert_eq!(client.resolved_models_url(), "https://api.openai.com/v1/models");
}

#[test]
fn unsupported_provider_discovery_fails_without_a_call() {
    for provider in [
        AiProvider::Anthropic,
        AiProvider::Cohere,
        AiProvider::Gemini,
        AiProvider::Groq,
        AiProvider::Xai,
    ] {
        match plan_discovery(&provider, &None) {
            DiscoveryPlan::Unsupported { response } => {
                assert!(!response.success);
                assert!(response.models.is_empty());
                let message = response.error_message.expect("an explanation is owed");
                assert!(!message.is_empty());
            },
            _ => panic!("a provider without listing support must be refused at once"),
        }
    }
}

#[test]
fn openai_compatible_discovery_goes_to_the_listing_endpoint() {
    match plan_discovery(&AiProvider::OpenAI, &None) {
        DiscoveryPlan::DirectHttp { url } => {
            assert_eq!(url, "https://api.openai.com/v1/models");
        },
        _ => panic!("OpenAI lists over its own endpoint"),
    }
    match plan_discovery(&AiProvider::Ollama, &None) {
        DiscoveryPlan::ProviderNative { family } => {
            assert_eq!(family, WireFamily::Ollama);
        },
        _ => panic!("Ollama lists over its native path"),
    }
}

#[test]
fn unsupported_listing_response_is_consistent() {
    let r = unsupported_listing_response();
    assert!(!r.success);
    assert!(r.models.is_empty());
    assert_eq!(
        r.error_message.unwrap(),
        "此提供商不支持动态获取模型列表，请手动添加模型"
    );
}

#[test]
fn http_failure_carries_status_and_body() {
    let r = listing_outcome_response(FetchOutcome::HttpFailure {
        status: 404,
        body: "not found".to_string(),
    });
    assert!(!r.success);
    assert!(r.models.is_empty());
    assert_eq!(r.error_message.unwrap(), "HTTP 错误 404: not found");
}

#[test]
fn decode_and_transport_failures_carry_their_detail() {
    let r = listing_outcome_response(FetchOutcome::DecodeFailure {
        detail: "bad json".to_string(),
    });
    assert_eq!(r.error_message.unwrap(), "解析响应失败: bad json");
    let r = listing_outcome_response(FetchOutcome::TransportFailure {
        detail: "timed out".to_string(),
    });
    assert_eq!(r.error_message.unwrap(), "网络请求失败: timed out");
    assert!(!r.success);
}

#[test]
fn successful_listing_outcome_is_filtered() {
    let r = listing_outcome_response(FetchOutcome::Listing {
        ids: vec!["gpt-4".to_string(), "dall-e-3".to_string()],
    });
    assert!(r.success);
    assert!(r.error_message.is_none());
    assert_eq!(r.models, vec!["gpt-4".to_string()]);
}

#[test]
fn native_listing_passes_names_through_unfiltered() {
    let r = native_listing_response(Ok(vec!["sonnet-large".to_string(), "ada".to_string()]));
    assert!(r.success);
    assert_eq!(r.models, vec!["sonnet-large".to_string(), "ada".to_string()]);
    let r = native_listing_response(Err("no route".to_string()));
    assert!(!r.success);
    assert_eq!(r.error_message.unwrap(), "获取模型列表失败: no route");
}
