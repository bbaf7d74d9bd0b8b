use chronos::budget::{
    BudgetError, BudgetState, CallGuard, GEMINI_TOKEN_BUDGET, T3_CALL_LIMIT, T4_CALL_LIMIT,
    T4_TOKEN_BUDGET,
};

#[test]
fn new_budget_is_empty() {
    let s = BudgetState::new();
    assert_eq!(s.minimax_calls_made, 0);
    assert_eq!(s.minimax_tokens_used, 0);
    assert_eq!(s.gemini_calls_made, 0);
    assert_eq!(s.gemini_tokens_used, 0);
    let d = BudgetState::default();
    assert_eq!(d.minimax_calls_made, 0);
    assert_eq!(d.gemini_tokens_used, 0);
}

#[test]
fn fresh_cycle_has_full_allowance() {
    let s = BudgetState::new();
    assert_eq!(s.minimax_remaining_tokens(), T4_TOKEN_BUDGET);
    assert_eq!(s.minimax_calls_remaining(), T4_CALL_LIMIT);
    assert_eq!(s.gemini_remaining_tokens(), GEMINI_TOKEN_BUDGET);
    assert_eq!(s.gemini_calls_remaining(), T3_CALL_LIMIT);
}

#[test]
fn record_adds_one_call_and_the_tokens() {
    let mut s = BudgetState::new();
    s.record_minimax(1500);
    s.record_minimax(500);
    assert_eq!(s.minimax_calls_made, 2);
    assert_eq!(s.minimax_tokens_used, 2000);
    assert_eq!(s.minimax_remaining_tokens(), 78000);
    assert_eq!(s.minimax_calls_remaining(), 18);
    s.record_gemini(9000);
    assert_eq!(s.gemini_calls_made, 1);
    assert_eq!(s.gemini_tokens_used, 9000);
    assert_eq!(s.gemini_remaining_tokens(), 1000);
    assert_eq!(s.gemini_calls_remaining(), 9);
    // the other provider is untouched
    assert_eq!(s.minimax_calls_made, 2);
}

#[test]
fn remaining_saturates_at_zero() {
    let mut s = BudgetState::new();
    s.record_minimax(90000);
    s.record_gemini(12000);
    assert_eq!(s.minimax_remaining_tokens(), 0);
    assert_eq!(s.gemini_remaining_tokens(), 0);
    for _ in 0..25 {
        s.record_gemini(0);
    }
    assert_eq!(s.gemini_calls_remaining(), 0);
}

#[test]
fn reset_forgets_everything() {
    let mut s = BudgetState::new();
    s.record_minimax(10);
    s.record_gemini(20);
    s.reset();
    assert_eq!(s.minimax_calls_made, 0);
    assert_eq!(s.minimax_tokens_used, 0);
    assert_eq!(s.gemini_calls_made, 0);
    assert_eq!(s.gemini_tokens_used, 0);
}

#[test]
fn reserve_takes_a_call_and_the_estimate() {
    let mut s = BudgetState::new();
    let g = CallGuard::reserve_minimax(&mut s, 1200);
    assert!(g.is_ok());
    assert_eq!(s.minimax_calls_made, 1);
    assert_eq!(s.minimax_tokens_used, 1200);
}

#[test]
fn unconfirmed_release_restores_budget() {
    let mut s = BudgetState::new();
    s.record_minimax(300);
    let before = s;
    let g = CallGuard::reserve_minimax(&mut s, 700).unwrap();
    assert_eq!(s.minimax_tokens_used, 1000);
    g.release(&mut s);
    assert_eq!(s.minimax_calls_made, before.minimax_calls_made);
    assert_eq!(s.minimax_tokens_used, before.minimax_tokens_used);
    assert_eq!(s.gemini_calls_made, before.gemini_calls_made);
}

#[test]
fn confirm_replaces_estimate_with_actual() {
    let mut s = BudgetState::new();
    s.record_minimax(100);
    let mut g = CallGuard::reserve_minimax(&mut s, 500).unwrap();
    g.confirm(&mut s, 120);
    g.release(&mut s);
    // same as recording the actual use
    let mut r = BudgetState::new();
    r.record_minimax(100);
    r.record_minimax(120);
    assert_eq!(s.minimax_calls_made, r.minimax_calls_made);
    assert_eq!(s.minimax_tokens_used, r.minimax_tokens_used);
    assert_eq!(s.minimax_tokens_used, 220);
}

#[test]
fn confirm_saturates() {
    let mut s = BudgetState::new();
    let mut g = CallGuard::reserve_minimax(&mut s, 10).unwrap();
    s.minimax_tokens_used = 5;
    g.confirm(&mut s, 7);
    assert_eq!(s.minimax_tokens_used, 7);
    let mut g2 = CallGuard::reserve_minimax(&mut s, 0).unwrap();
    s.minimax_tokens_used = u32::MAX - 1;
    g2.confirm(&mut s, 10);
    assert_eq!(s.minimax_tokens_used, u32::MAX);
}

#[test]
fn call_limit_refuses_the_twenty_first_call() {
    let mut s = BudgetState::new();
    for _ in 0..T4_CALL_LIMIT {
        assert!(CallGuard::reserve_minimax(&mut s, 0).is_ok());
    }
    let before = s;
    match CallGuard::reserve_minimax(&mut s, 0) {
        Err(BudgetError::CallLimitExceeded { provider, used, limit }) => {
            assert_eq!(provider, "minimax");
            assert_eq!(used, 20);
            assert_eq!(limit, 20);
        }
        _ => panic!("expected the call limit"),
    }
    assert_eq!(s.minimax_calls_made, before.minimax_calls_made);
    assert_eq!(s.minimax_tokens_used, before.minimax_tokens_used);
}

#[test]
fn token_budget_refuses_an_estimate_that_does_not_fit() {
    let mut s = BudgetState::new();
    s.record_minimax(79000);
    match CallGuard::reserve_minimax(&mut s, 1001) {
        Err(BudgetError::TokenBudgetExceeded { provider, needed, remaining }) => {
            assert_eq!(provider, "minimax");
            assert_eq!(needed, 1001);
            assert_eq!(remaining, 1000);
        }
        _ => panic!("expected the token budget"),
    }
    assert_eq!(s.minimax_calls_made, 1);
    assert_eq!(s.minimax_tokens_used, 79000);
    // exactly the remaining tokens still fit
    assert!(CallGuard::reserve_minimax(&mut s, 1000).is_ok());
    assert_eq!(s.minimax_tokens_used, 80000);
}

#[test]
fn call_limit_is_checked_before_tokens() {
    let mut s = BudgetState::new();
    s.minimax_calls_made = 20;
    s.minimax_tokens_used = 80000;
    assert!(matches!(
        CallGuard::reserve_minimax(&mut s, 5),
        Err(BudgetError::CallLimitExceeded { .. })
    ));
}

#[test]
fn budget_error_messages() {
    let e = BudgetError::CallLimitExceeded { provider: "minimax".to_string(), used: 20, limit: 20 };
    assert_eq!(e.message(), "Call limit exceeded: minimax used 20/20");
    let e = BudgetError::TokenBudgetExceeded {
        provider: "minimax".to_string(),
        needed: 1001,
        remaining: 0,
    };
    assert_eq!(e.message(), "Token budget exceeded: minimax needs 1001, only 0 remaining");
}
