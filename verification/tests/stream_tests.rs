use ai_chat::options::shape_chat_response;
use ai_chat::options::TokenUsage;
use ai_chat::stream::open_failure_event;
use ai_chat::stream::run_stream;
use ai_chat::stream::stream_error_event;
use ai_chat::stream::ChatStreamEvent;
use ai_chat::stream::ProviderStreamEvent;
use ai_chat::stream::StreamRun;

fn chunk(s: &str) -> ProviderStreamEvent {
    ProviderStreamEvent::Chunk { content: s.to_string() }
}

#[test]
fn three_chunks_and_an_end_make_the_documented_sequence() {
    let usage = TokenUsage {
        prompt_tokens: Some(5),
        completion_tokens: Some(3),
        total_tokens: Some(8),
    };
    let events = vec![
        chunk("A"),
        chunk("B"),
        chunk("C"),
        ProviderStreamEvent::End { usage: Some(usage) },
    ];
    let out = run_stream(events);
    assert_eq!(
        out,
        vec![
            ChatStreamEvent::Start,
            ChatStreamEvent::Content { content: "A".to_string() },
            ChatStreamEvent::Content { content: "B".to_string() },
            ChatStreamEvent::Content { content: "C".to_string() },
            ChatStreamEvent::Done { total_content: "ABC".to_string(), usage: Some(usage) },
        ]
    );
}

#[test]
fn a_redundant_start_and_reasoning_chunks_are_dropped() {
    let events = vec![
        ProviderStreamEvent::Start,
        ProviderStreamEvent::ReasoningChunk { content: "thinking".to_string() },
        chunk("hello"),
        ProviderStreamEvent::End { usage: None },
    ];
    let out = run_stream(events);
    assert_eq!(
        out,
        vec![
            ChatStreamEvent::Start,
            ChatStreamEvent::Content { content: "hello".to_string() },
            ChatStreamEvent::Done { total_content: "hello".to_string(), usage: None },
        ]
    );
}

#[test]
fn a_stream_error_terminates_without_done() {
    let events = vec![
        chunk("partial"),
        ProviderStreamEvent::StreamError { message: "connection reset".to_string() },
        chunk("never read"),
    ];
    let out = run_stream(events);
    assert_eq!(
        out,
        vec![
            ChatStreamEvent::Start,
            ChatStreamEvent::Content { content: "partial".to_string() },
            ChatStreamEvent::Error { message: "connection reset".to_string() },
        ]
    );
}

#[test]
fn an_exhausted_stream_emits_no_terminal_event() {
    let out = run_stream(vec![chunk("a"), chunk("b")]);
    assert_eq!(
        out,
        vec![
            ChatStreamEvent::Start,
            ChatStreamEvent::Content { content: "a".to_string() },
            ChatStreamEvent::Content { content: "b".to_string() },
        ]
    );
}

#[test]
fn transport_failures_become_prefixed_error_events() {
    let out = run_stream(vec![chunk("x"), stream_error_event("boom".to_string())]);
    assert_eq!(
        out,
        vec![
            ChatStreamEvent::Start,
            ChatStreamEvent::Content { content: "x".to_string() },
            ChatStreamEvent::Error { message: "Stream error: boom".to_string() },
        ]
    );
    assert_eq!(
        open_failure_event("no route".to_string()),
        ChatStreamEvent::Error { message: "Chat stream error: no route".to_string() }
    );
}

#[test]
fn an_empty_stream_still_opens_with_start() {
    assert_eq!(run_stream(vec![]), vec![ChatStreamEvent::Start]);
}

#[test]
fn the_run_accumulates_incrementally() {
    let mut run = StreamRun::new();
    assert_eq!(run.on_event(ProviderStreamEvent::Start), None);
    assert_eq!(
        run.on_event(chunk("A")),
        Some(ChatStreamEvent::Content { content: "A".to_string() })
    );
    assert_eq!(
        run.on_event(chunk("B")),
        Some(ChatStreamEvent::Content { content: "B".to_string() })
    );
    assert_eq!(
        run.on_event(ProviderStreamEvent::End { usage: None }),
        Some(ChatStreamEvent::Done { total_content: "AB".to_string(), usage: None })
    );
    assert!(run.finished);
}

#[test]
fn missing_content_falls_back_to_the_placeholder() {
    let r = shape_chat_response(None, "gpt-4".to_string(), Some(1), Some(2), Some(3));
    assert_eq!(r.content, "No response");
    assert_eq!(r.model, "gpt-4");
    assert_eq!(
        r.usage,
        Some(TokenUsage { prompt_tokens: Some(1), completion_tokens: Some(2), total_tokens: Some(3) })
    );
    let r = shape_chat_response(Some("hi".to_string()), "m".to_string(), None, None, None);
    assert_eq!(r.content, "hi");
    assert_eq!(
        r.usage,
        Some(TokenUsage { prompt_tokens: None, completion_tokens: None, total_tokens: None })
    );
}
