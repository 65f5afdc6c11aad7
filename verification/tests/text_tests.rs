use ai_chat::client::AiChatClient;
use ai_chat::text::normalize_base_url;
use ai_chat::text::str_contains;
use ai_chat::text::u16_to_string;

#[test]
fn test_normalize_base_url() {
    assert_eq!(
        AiChatClient::normalize_base_url("https://api.openai.com/v1/"),
        "https://api.openai.com/v1/"
    );

    assert_eq!(
        AiChatClient::normalize_base_url("https://api.openai.com/v1"),
        "https://api.openai.com/v1/"
    );

    assert_eq!(
        AiChatClient::normalize_base_url("  https://api.deepseek.com/v1  "),
        "https://api.deepseek.com/v1/"
    );

    assert_eq!(AiChatClient::normalize_base_url(""), "");

    assert_eq!(AiChatClient::normalize_base_url("   "), "");

    assert_eq!(
        AiChatClient::normalize_base_url("https://api.moonshot.cn/v1/chat/completions"),
        "https://api.moonshot.cn/v1/chat/completions/"
    );
}

#[test]
fn normalize_is_idempotent_on_samples() {
    let samples = vec![
        "https://api.openai.com/v1",
        "  https://api.deepseek.com/v1  ",
        "",
        "   ",
        "a",
        "a/",
        " / ",
    ];
    for s in samples {
        let once = normalize_base_url(s);
        let twice = normalize_base_url(&once);
        assert_eq!(once, twice);
    }
}

#[test]
fn normalize_adds_exactly_one_slash() {
    assert_eq!(normalize_base_url("http://x"), "http://x/");
    assert_eq!(normalize_base_url("http://x/"), "http://x/");
    assert_eq!(normalize_base_url(" http://x "), "http://x/");
}

#[test]
fn substring_search_finds_and_misses() {
    assert!(str_contains("gpt-4-turbo", "turbo"));
    assert!(str_contains("abc", ""));
    assert!(str_contains("abc", "abc"));
    assert!(!str_contains("abc", "abcd"));
    assert!(!str_contains("whisper", "whisperx"));
    assert!(str_contains("xxdall-exx", "dall-e"));
}

#[test]
fn decimal_formatting_is_exact() {
    assert_eq!(u16_to_string(0), "0");
    assert_eq!(u16_to_string(7), "7");
    assert_eq!(u16_to_string(10), "10");
    assert_eq!(u16_to_string(404), "404");
    assert_eq!(u16_to_string(65535), "65535");
}
