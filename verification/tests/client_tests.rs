use chronos::client::{
    api_response_body, bearer_header, estimate_conversation, first_choice_text, Choice, Message,
    MiniMaxClient, MiniMaxError,
};
use chronos::config::{t3_gemini_config, t3_minimax_config, t4_minimax_config, GeminiConfig, MiniMaxConfig};
use chronos::gemini::{
    generation_body, generation_output, user_turn, Candidate, Content, GeminiClient, GeminiError,
    GeminiResponse, Part, UsageMetadata,
};

#[test]
fn configurations() {
    let t4 = t4_minimax_config();
    assert_eq!(t4.model, "MiniMax-M2.7-highspeed");
    assert_eq!(t4.base_url, "https://api.minimax.chat/v1/text/chatcompletion_v2");
    assert_eq!(t4.max_tokens, 8192);
    assert_eq!(t4.timeout_secs, 120);
    assert_eq!(t4.api_key_env, "MINIMAX_API_KEY");
    let t3 = t3_minimax_config();
    assert_eq!(t3.max_tokens, 2048);
    assert_eq!(t3.timeout_secs, 60);
    assert_eq!(MiniMaxConfig::t3_default().model, t3.model);
    let g = t3_gemini_config();
    assert_eq!(g.model, "gemini-2.0-flash");
    assert_eq!(g.max_output_tokens, 2048);
    assert_eq!(g.api_key_env, "GEMINI_API_KEY");
    assert_eq!(GeminiConfig::t3_fallback().base_url, g.base_url);
}

#[test]
fn estimate_is_a_quarter_of_the_bytes() {
    let msgs = vec![
        Message::new("user", "abcdefgh"),     // 8 bytes: 2
        Message::new("user", "abc"),          // 3 bytes: 0
        Message::new("user", "\u{e9}\u{e9}"), // 4 bytes: 1
    ];
    assert_eq!(estimate_conversation(&msgs), 3);
    assert_eq!(estimate_conversation(&[]), 0);
    let c = MiniMaxClient::new(t4_minimax_config()).unwrap();
    assert_eq!(c.estimate_tokens(&msgs), 3);
    assert_eq!(c.request_max_tokens(None), 8192);
    assert_eq!(c.request_max_tokens(Some(10)), 10);
    assert_eq!(c.config().timeout_secs, 120);
}

#[test]
fn status_other_than_200_is_an_api_error() {
    assert_eq!(api_response_body(200, "{}".to_string()).unwrap(), "{}");
    match api_response_body(500, "boom".to_string()) {
        Err(MiniMaxError::ApiError { code, message }) => {
            assert_eq!(code, 500);
            assert_eq!(message, "boom");
        }
        _ => panic!("expected an API error"),
    }
}

#[test]
fn minimax_error_messages() {
    assert_eq!(MiniMaxError::HttpError("x".to_string()).message(), "HTTP error: x");
    assert_eq!(
        MiniMaxError::ApiError { code: 401, message: "no".to_string() }.message(),
        "API error: 401 \u{2014} no"
    );
    assert_eq!(MiniMaxError::ParseError("p".to_string()).message(), "Parse error: p");
    assert_eq!(MiniMaxError::BudgetExhausted.message(), "Budget exhausted");
}

#[test]
fn first_choice_or_empty() {
    let choices = vec![
        Choice {
            finish_reason: "stop".to_string(),
            message: Message::new("assistant", "first"),
        },
        Choice {
            finish_reason: "stop".to_string(),
            message: Message::new("assistant", "second"),
        },
    ];
    assert_eq!(first_choice_text(&choices), "first");
    assert_eq!(first_choice_text(&vec![]), "");
    assert_eq!(bearer_header("k-123"), "Bearer k-123");
}

#[test]
fn gemini_generation_output() {
    let r = GeminiResponse {
        candidates: vec![Candidate {
            content: Content {
                role: "model".to_string(),
                parts: vec![Part { text: "hi".to_string() }, Part { text: "ignored".to_string() }],
            },
            finish_reason: "STOP".to_string(),
        }],
        usage_metadata: Some(UsageMetadata {
            prompt_tokens: 3,
            completion_tokens: 4,
            total_tokens: 7,
        }),
    };
    assert_eq!(generation_output(&r), ("hi".to_string(), 7));
    let empty = GeminiResponse { candidates: vec![], usage_metadata: None };
    assert_eq!(generation_output(&empty), (String::new(), 0));
    let no_parts = GeminiResponse {
        candidates: vec![Candidate {
            content: Content { role: "model".to_string(), parts: vec![] },
            finish_reason: "STOP".to_string(),
        }],
        usage_metadata: None,
    };
    assert_eq!(generation_output(&no_parts).0, "");
}

#[test]
fn gemini_status_and_request() {
    assert_eq!(generation_body(200, "ok".to_string()).unwrap(), "ok");
    match generation_body(403, "denied".to_string()) {
        Err(GeminiError::ApiError(m)) => assert_eq!(m, "status=403: denied"),
        _ => panic!("expected an API error"),
    }
    let turn = user_turn("prompt".to_string());
    assert_eq!(turn.role, "user");
    assert_eq!(turn.parts.len(), 1);
    assert_eq!(turn.parts[0].text, "prompt");
    let c = GeminiClient::new(t3_gemini_config()).unwrap();
    assert_eq!(
        c.request_url("KEY"),
        "https://generativelanguage.googleapis.com/v1beta/models/gemini-2.0-flash:generateContent/?key=KEY"
    );
    assert_eq!(c.request_max_tokens(None), 2048);
    assert_eq!(c.request_max_tokens(Some(2048)), 2048);
    assert_eq!(c.request_max_tokens(Some(5)), 5);
    assert_eq!(GeminiError::HttpError("h".to_string()).message(), "HTTP error: h");
    assert_eq!(GeminiError::ParseError("e".to_string()).message(), "Parse error: e");
}
