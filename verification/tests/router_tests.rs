use chronos::budget::{BudgetError, BudgetState, CallGuard};
use chronos::client::{Choice, Message, MiniMaxClient, MiniMaxError, MiniMaxResponse, Usage};
use chronos::config::t3_minimax_config;
use chronos::gemini::GeminiError;
use chronos::router::{
    begin_gemini_call, begin_minimax_call, begin_synthesis_call, budget_status,
    finish_gemini_call, finish_minimax_call, max_tokens_override, synthesis_prompt, synthesis_retry,
    t1_messages,
    t2_messages, t3_messages, t4_messages, MiniMaxProfile, PipelineRun, PipelineStage,
    TierAction, TierError, TierState,
};

fn response(text: &str, total: u32) -> MiniMaxResponse {
    MiniMaxResponse {
        id: "r1".to_string(),
        choices: vec![Choice {
            finish_reason: "stop".to_string(),
            message: Message { role: "assistant".to_string(), content: text.to_string() },
        }],
        usage: Usage { prompt_tokens: 1, completion_tokens: 2, total_tokens: total },
    }
}

#[test]
fn tier_state_walks_to_persisted() {
    let mut s = TierState::Pending;
    let names = ["PENDING", "T1_DONE", "T2_DONE", "T3_DONE", "T4_DONE", "JUDGE_DONE", "PERSISTED"];
    for name in names.iter() {
        assert_eq!(s.as_str(), *name);
        s = s.next();
    }
    assert_eq!(s, TierState::Persisted);
    assert_eq!(TierState::Persisted.next(), TierState::Persisted);
}

#[test]
fn prompts_carry_the_content() {
    let m = t1_messages("an idea");
    assert_eq!(m.len(), 2);
    assert_eq!(m[0].role, "system");
    assert_eq!(
        m[0].content,
        "Classify this thought. Return JSON: {\"tags\": [...], \"type\": \"fact|belief|question|idea\"}"
    );
    assert_eq!(m[1].role, "user");
    assert_eq!(m[1].content, "an idea");
    let m = t2_messages("x");
    assert_eq!(
        m[0].content,
        "Extract claims and relationships. Return JSON: {\"claims\": [...], \"relationships\": [...]}"
    );
    let m = t3_messages("a", "b");
    assert_eq!(m[0].content, t3_minimax_config().model);
    assert_eq!(m[1].content, "T1: a\n\nT2: b\n\nGenerate a synthesis.");
    assert_eq!(synthesis_prompt("a", "b"), "T1: a\n\nT2: b\n\nGenerate a synthesis.");
    let m = t4_messages("syn");
    assert_eq!(
        m[0].content,
        "You are a deep reasoning engine. Expand on this synthesis with critical analysis."
    );
    assert_eq!(m[1].content, "syn");
}

#[test]
fn deep_profile_asks_for_long_answers() {
    assert_eq!(max_tokens_override(MiniMaxProfile::Deep), Some(8192));
    assert_eq!(max_tokens_override(MiniMaxProfile::Standard), None);
    assert_eq!(max_tokens_override(MiniMaxProfile::Synthesis), None);
}

#[test]
fn no_client_fails_without_touching_the_budget() {
    let mut b = BudgetState::new();
    let msgs = t1_messages("hello");
    match begin_minimax_call(&mut b, None, &msgs) {
        Err(TierError::ProviderError(m)) => {
            assert_eq!(m, "MiniMax client not initialized (reqwest failed to build)")
        }
        _ => panic!("expected a provider error"),
    }
    assert_eq!(b.minimax_calls_made, 0);
    let bad: Result<MiniMaxClient, MiniMaxError> =
        Err(MiniMaxError::HttpError("no tls".to_string()));
    match begin_synthesis_call(&mut b, &bad, &msgs) {
        Err(TierError::ProviderError(m)) => {
            assert_eq!(m, "MiniMax T3 client init failed: HTTP error: no tls")
        }
        _ => panic!("expected a provider error"),
    }
    match begin_gemini_call(&b, None) {
        Err(TierError::ProviderError(m)) => {
            assert_eq!(m, "Gemini client not initialized (reqwest failed to build)")
        }
        _ => panic!("expected a provider error"),
    }
}

#[test]
fn gemini_refused_when_its_cycle_allowance_is_spent() {
    let mut b = BudgetState::new();
    for _ in 0..10 {
        b.record_gemini(1);
    }
    let before = b.clone();
    match begin_gemini_call(&b, None) {
        Err(TierError::BudgetError(BudgetError::CallLimitExceeded { provider, used, limit })) => {
            assert_eq!(provider, "gemini");
            assert_eq!(used, 10);
            assert_eq!(limit, 10);
        }
        _ => panic!("expected the call limit"),
    }
    assert_eq!(b.gemini_calls_made, before.gemini_calls_made);
    assert_eq!(b.gemini_tokens_used, before.gemini_tokens_used);

    let mut t = BudgetState::new();
    t.record_gemini(10_000);
    match begin_gemini_call(&t, None) {
        Err(TierError::BudgetError(e)) => {
            assert_eq!(e.message(), "Token budget exceeded: gemini needs 1, only 0 remaining")
        }
        _ => panic!("expected the token budget"),
    }
    assert_eq!(t.gemini_calls_made, 1);
    assert_eq!(t.gemini_tokens_used, 10_000);

    let mut u = BudgetState::new();
    u.record_gemini(9_999);
    match begin_gemini_call(&u, None) {
        Err(TierError::ProviderError(_)) => {}
        _ => panic!("one token left still lets the call through to the client check"),
    }
}

#[test]
fn client_call_reserves_the_estimate() {
    let mut b = BudgetState::new();
    let client = MiniMaxClient::new(t3_minimax_config()).expect("http client");
    // "hello world!" is 12 bytes: 3 tokens; "abcdefg" is 7 bytes: 1 token
    let msgs = vec![
        Message::new("system", "hello world!"),
        Message::new("user", "abcdefg"),
    ];
    assert_eq!(client.estimate_tokens(&msgs), 3 + 1);
    let g = begin_minimax_call(&mut b, Some(&client), &msgs).expect("reserved");
    assert_eq!(b.minimax_calls_made, 1);
    assert_eq!(b.minimax_tokens_used, 4);
    let out = finish_minimax_call(&mut b, g, Ok(response("the answer", 40)));
    assert_eq!(out.unwrap(), "the answer");
    assert_eq!(b.minimax_calls_made, 1);
    assert_eq!(b.minimax_tokens_used, 40);
}

#[test]
fn failed_call_gives_the_reservation_back() {
    let mut b = BudgetState::new();
    let g = CallGuard::reserve_minimax(&mut b, 50).unwrap();
    let out = finish_minimax_call(
        &mut b,
        g,
        Err(MiniMaxError::ApiError { code: 429, message: "slow down".to_string() }),
    );
    match out {
        Err(TierError::ProviderError(m)) => assert_eq!(m, "API error: 429 \u{2014} slow down"),
        _ => panic!("expected a provider error"),
    }
    assert_eq!(b.minimax_calls_made, 0);
    assert_eq!(b.minimax_tokens_used, 0);
}

#[test]
fn budget_refusal_is_a_budget_error() {
    let mut b = BudgetState::new();
    b.record_minimax(80000);
    let client = MiniMaxClient::with_default().expect("http client");
    let msgs = t1_messages("some content to classify");
    match begin_minimax_call(&mut b, Some(&client), &msgs) {
        Err(TierError::BudgetError(BudgetError::TokenBudgetExceeded { remaining, .. })) => {
            assert_eq!(remaining, 0)
        }
        _ => panic!("expected the budget's refusal"),
    }
    assert_eq!(b.minimax_calls_made, 1);
}

#[test]
fn empty_completion_gives_empty_text() {
    let mut b = BudgetState::new();
    let g = CallGuard::reserve_minimax(&mut b, 5).unwrap();
    let mut r = response("", 3);
    r.choices.clear();
    assert_eq!(finish_minimax_call(&mut b, g, Ok(r)).unwrap(), "");
    assert_eq!(b.minimax_tokens_used, 3);
}

#[test]
fn gemini_call_is_recorded() {
    let mut b = BudgetState::new();
    let out = finish_gemini_call(&mut b, Ok(("synthesis".to_string(), 321)));
    assert_eq!(out.unwrap(), "synthesis");
    assert_eq!(b.gemini_calls_made, 1);
    assert_eq!(b.gemini_tokens_used, 321);
    let out = finish_gemini_call(&mut b, Err(GeminiError::ApiError("status=500: x".to_string())));
    match out {
        Err(TierError::ProviderError(m)) => assert_eq!(m, "API error: status=500: x"),
        _ => panic!("expected a provider error"),
    }
    assert_eq!(b.gemini_calls_made, 1);
}

#[test]
fn tier_error_messages() {
    let e = TierError::ProviderError("down".to_string());
    assert_eq!(e.message(), "Provider error: down");
    let e: TierError =
        BudgetError::CallLimitExceeded { provider: "minimax".to_string(), used: 20, limit: 20 }.into();
    assert_eq!(e.message(), "Budget error: Call limit exceeded: minimax used 20/20");
}

#[test]
fn budget_status_mirrors_the_state() {
    let mut b = BudgetState::new();
    b.record_minimax(10);
    b.record_gemini(7);
    let st = budget_status(&b);
    assert_eq!(st.minimax_calls, 1);
    assert_eq!(st.minimax_calls_limit, 20);
    assert_eq!(st.minimax_tokens, 10);
    assert_eq!(st.minimax_tokens_limit, 80000);
    assert_eq!(st.gemini_calls, 1);
    assert_eq!(st.gemini_tokens, 7);
    assert_eq!(st.gemini_tokens_limit, 10000);
}

fn answer(run: &mut PipelineRun, r: Result<String, TierError>) {
    run.advance(r);
}

#[test]
fn pipeline_all_tiers_succeed() {
    let mut run = PipelineRun::start("a thought");
    match run.next_action() {
        TierAction::CallMiniMax { profile, messages } => {
            assert_eq!(profile, MiniMaxProfile::Standard);
            assert_eq!(messages[1].content, "a thought");
        }
        _ => panic!("T1 first"),
    }
    answer(&mut run, Ok("tags".to_string()));
    assert_eq!(run.stage(), PipelineStage::Extract);
    answer(&mut run, Ok("claims".to_string()));
    match run.next_action() {
        TierAction::CallMiniMax { profile, messages } => {
            assert_eq!(profile, MiniMaxProfile::Synthesis);
            assert_eq!(messages[1].content, "T1: tags\n\nT2: claims\n\nGenerate a synthesis.");
        }
        _ => panic!("T3 on MiniMax"),
    }
    answer(&mut run, Ok("synth".to_string()));
    match run.next_action() {
        TierAction::CallMiniMax { profile, messages } => {
            assert_eq!(profile, MiniMaxProfile::Deep);
            assert_eq!(messages[1].content, "synth");
        }
        _ => panic!("T4"),
    }
    answer(&mut run, Ok("deep".to_string()));
    assert!(run.is_finished());
    assert!(matches!(run.next_action(), TierAction::Finish));
    let r = run.into_outcome().unwrap().unwrap();
    assert_eq!(r.t1_result, "tags");
    assert_eq!(r.t2_result, "claims");
    assert_eq!(r.t3_result, "synth");
    assert_eq!(r.t4_result, "deep");
    assert_eq!(r.tier_used, "t4");
    assert_eq!(r.provider_used, "minimax");
}

#[test]
fn pipeline_falls_back_to_gemini_for_synthesis() {
    let mut run = PipelineRun::start("c");
    answer(&mut run, Ok("one".to_string()));
    answer(&mut run, Ok("two".to_string()));
    answer(&mut run, Err(TierError::ProviderError("minimax down".to_string())));
    assert_eq!(run.stage(), PipelineStage::SynthesizeFallback);
    match run.next_action() {
        TierAction::CallGemini { prompt } => {
            assert_eq!(prompt, "T1: one\n\nT2: two\n\nGenerate a synthesis.")
        }
        _ => panic!("Gemini retry"),
    }
    answer(&mut run, Ok("gemini synth".to_string()));
    assert_eq!(run.stage(), PipelineStage::Reason);
    answer(&mut run, Ok("deep".to_string()));
    let r = run.into_outcome().unwrap().unwrap();
    assert_eq!(r.t3_result, "gemini synth");
    assert_eq!(r.provider_used, "minimax");
}

#[test]
fn pipeline_stops_at_the_first_hard_failure() {
    let mut run = PipelineRun::start("c");
    answer(&mut run, Err(TierError::ProviderError("t1 failed".to_string())));
    assert!(run.is_finished());
    match run.into_outcome() {
        Some(Err(TierError::ProviderError(m))) => assert_eq!(m, "t1 failed"),
        _ => panic!("the T1 error"),
    }
    let mut run = PipelineRun::start("c");
    answer(&mut run, Ok("1".to_string()));
    answer(&mut run, Ok("2".to_string()));
    answer(&mut run, Err(TierError::ProviderError("m".to_string())));
    answer(&mut run, Err(TierError::ProviderError("g".to_string())));
    match run.into_outcome() {
        Some(Err(TierError::ProviderError(m))) => assert_eq!(m, "g"),
        _ => panic!("the Gemini error"),
    }
}

#[test]
fn synthesis_retry_asks_gemini_only_on_failure() {
    assert_eq!(synthesis_retry("a", "b", Ok("s".to_string())), Ok("s".to_string()));
    assert_eq!(
        synthesis_retry("a", "b", Err(TierError::ProviderError("x".to_string()))),
        Err("T1: a\n\nT2: b\n\nGenerate a synthesis.".to_string())
    );
}
