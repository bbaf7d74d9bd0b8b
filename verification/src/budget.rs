//! Per-cycle budget for the language-model providers, and the call guard
//! that reserves a MiniMax slot before a request, confirms it with the
//! tokens actually used, or gives the reservation back.

use vstd::prelude::*;
use crate::text::{decimal, push_decimal};

verus! {

/// MiniMax calls allowed per cron cycle.
pub const T4_CALL_LIMIT: u32 = 20;
/// MiniMax tokens allowed per cron cycle.
pub const T4_TOKEN_BUDGET: u32 = 80000;
/// Token budget of the synthesis tier.
pub const T3_TOKEN_BUDGET: u32 = 20000;
/// Gemini calls allowed per cron cycle.
pub const T3_CALL_LIMIT: u32 = 10;
/// Gemini tokens allowed per cron cycle.
pub const GEMINI_TOKEN_BUDGET: u32 = 10000;

/// What has been spent in the current cycle.
#[derive(Debug, Clone, Copy)]
pub struct BudgetState {
    /// MiniMax calls made this cycle
    pub minimax_calls_made: u32,
    /// MiniMax tokens used this cycle
    pub minimax_tokens_used: u32,
    /// Gemini calls made this cycle
    pub gemini_calls_made: u32,
    /// Gemini tokens used this cycle
    pub gemini_tokens_used: u32,
}

/// `a - b`, or 0 where that would be negative.
pub open spec fn sat_sub(a: u32, b: u32) -> u32 {
    if a >= b { (a - b) as u32 } else { 0 }
}

/// `a + b`, or `u32::MAX` where that would not fit.
pub open spec fn sat_add(a: u32, b: u32) -> u32 {
    if a + b > u32::MAX { u32::MAX } else { (a + b) as u32 }
}

impl BudgetState {
    /// The state at the start of a cycle: nothing spent.
    pub open spec fn fresh() -> BudgetState {
        BudgetState {
            minimax_calls_made: 0,
            minimax_tokens_used: 0,
            gemini_calls_made: 0,
            gemini_tokens_used: 0,
        }
    }

    /// Nothing has been spent in this state.
    pub open spec fn is_empty_cycle(self) -> bool {
        &&& self.minimax_calls_made == 0
        &&& self.minimax_tokens_used == 0
        &&& self.gemini_calls_made == 0
        &&& self.gemini_tokens_used == 0
    }

    /// The state with `tokens` MiniMax tokens and one more MiniMax call.
    pub open spec fn with_minimax_recorded(self, tokens: u32) -> BudgetState {
        BudgetState {
            minimax_calls_made: (self.minimax_calls_made + 1) as u32,
            minimax_tokens_used: (self.minimax_tokens_used + tokens) as u32,
            ..self
        }
    }

    /// The state with `tokens` Gemini tokens and one more Gemini call.
    pub open spec fn with_gemini_recorded(self, tokens: u32) -> BudgetState {
        BudgetState {
            gemini_calls_made: (self.gemini_calls_made + 1) as u32,
            gemini_tokens_used: (self.gemini_tokens_used + tokens) as u32,
            ..self
        }
    }

    pub fn new() -> (s: Self)
        ensures
            s == BudgetState::fresh(),
            s.is_empty_cycle(),
    {
        BudgetState {
            minimax_calls_made: 0,
            minimax_tokens_used: 0,
            gemini_calls_made: 0,
            gemini_tokens_used: 0,
        }
    }

    /// Record actual token usage after a MiniMax call completes.
    pub fn record_minimax(&mut self, tokens_used: u32)
        requires
            old(self).minimax_calls_made < u32::MAX,
            old(self).minimax_tokens_used + tokens_used <= u32::MAX,
        ensures
            *final(self) == old(self).with_minimax_recorded(tokens_used),
            final(self).minimax_calls_made == old(self).minimax_calls_made + 1,
            final(self).minimax_tokens_used == old(self).minimax_tokens_used + tokens_used,
            final(self).gemini_calls_made == old(self).gemini_calls_made,
            final(self).gemini_tokens_used == old(self).gemini_tokens_used,
    {
        self.minimax_calls_made += 1;
        self.minimax_tokens_used += tokens_used;
    }

    /// Record actual token usage after a Gemini call completes.
    pub fn record_gemini(&mut self, tokens_used: u32)
        requires
            old(self).gemini_calls_made < u32::MAX,
            old(self).gemini_tokens_used + tokens_used <= u32::MAX,
        ensures
            *final(self) == old(self).with_gemini_recorded(tokens_used),
            final(self).gemini_calls_made == old(self).gemini_calls_made + 1,
            final(self).gemini_tokens_used == old(self).gemini_tokens_used + tokens_used,
            final(self).minimax_calls_made == old(self).minimax_calls_made,
            final(self).minimax_tokens_used == old(self).minimax_tokens_used,
    {
        self.gemini_calls_made += 1;
        self.gemini_tokens_used += tokens_used;
    }

    pub fn minimax_remaining_tokens(&self) -> (r: u32)
        ensures
            r == sat_sub(T4_TOKEN_BUDGET, self.minimax_tokens_used),
    {
        T4_TOKEN_BUDGET.saturating_sub(self.minimax_tokens_used)
    }

    pub fn gemini_remaining_tokens(&self) -> (r: u32)
        ensures
            r == sat_sub(GEMINI_TOKEN_BUDGET, self.gemini_tokens_used),
    {
        GEMINI_TOKEN_BUDGET.saturating_sub(self.gemini_tokens_used)
    }

    pub fn minimax_calls_remaining(&self) -> (r: u32)
        ensures
            r == sat_sub(T4_CALL_LIMIT, self.minimax_calls_made),
    {
        T4_CALL_LIMIT.saturating_sub(self.minimax_calls_made)
    }

    pub fn gemini_calls_remaining(&self) -> (r: u32)
        ensures
            r == sat_sub(T3_CALL_LIMIT, self.gemini_calls_made),
    {
        T3_CALL_LIMIT.saturating_sub(self.gemini_calls_made)
    }

    /// Start a new cycle: forget everything spent.
    pub fn reset(&mut self)
        ensures
            *final(self) == BudgetState::fresh(),
            final(self).is_empty_cycle(),
    {
        *self = Self::new();
    }
}

impl Default for BudgetState {
    fn default() -> (s: Self)
        ensures
            s == BudgetState::fresh(),
            s.is_empty_cycle(),
    {
        Self::new()
    }
}


/// Which provider a reservation was taken from.
#[derive(Debug, Clone, Copy, PartialEq, Eq, Structural)]
pub enum CallType {
    MiniMax,
    Gemini,
    T3MiniMax,
}

/// Why a reservation was refused.
#[derive(Debug, Clone)]
pub enum BudgetError {
    CallLimitExceeded { provider: String, used: u32, limit: u32 },
    TokenBudgetExceeded { provider: String, needed: u32, remaining: u32 },
}

/// The text of a budget error, as it is shown to the user.
pub open spec fn budget_error_text(e: BudgetError) -> Seq<char> {
    match e {
        BudgetError::CallLimitExceeded { provider, used, limit } =>
            "Call limit exceeded: "@ + provider@ + " used "@ + decimal(used as nat) + "/"@
                + decimal(limit as nat),
        BudgetError::TokenBudgetExceeded { provider, needed, remaining } =>
            "Token budget exceeded: "@ + provider@ + " needs "@ + decimal(needed as nat)
                + ", only "@ + decimal(remaining as nat) + " remaining"@,
    }
}

impl BudgetError {
    /// The text of this error, as it is shown to the user.
    pub fn message(&self) -> (r: String)
        ensures
            r@ == budget_error_text(*self),
    {
        match self {
            BudgetError::CallLimitExceeded { provider, used, limit } => {
                let mut s = String::from_str("Call limit exceeded: ");
                s.append(provider.as_str());
                s.append(" used ");
                push_decimal(&mut s, *used as u64);
                s.append("/");
                push_decimal(&mut s, *limit as u64);
                s
            },
            BudgetError::TokenBudgetExceeded { provider, needed, remaining } => {
                let mut s = String::from_str("Token budget exceeded: ");
                s.append(provider.as_str());
                s.append(" needs ");
                push_decimal(&mut s, *needed as u64);
                s.append(", only ");
                push_decimal(&mut s, *remaining as u64);
                s.append(" remaining");
                s
            },
        }
    }
}

/// A MiniMax reservation may be taken from `s` for `estimated` tokens:
/// a call is left and the tokens still fit in the cycle's budget.
pub open spec fn minimax_reservable(s: BudgetState, estimated: u32) -> bool {
    &&& s.minimax_calls_made < T4_CALL_LIMIT
    &&& sat_sub(T4_TOKEN_BUDGET, s.minimax_tokens_used) >= estimated
}

/// The error with which a MiniMax reservation of `estimated` tokens is
/// refused in state `s`, where it is refused.
pub open spec fn minimax_refusal(s: BudgetState, estimated: u32) -> BudgetError {
    if s.minimax_calls_made >= T4_CALL_LIMIT {
        BudgetError::CallLimitExceeded {
            provider: arbitrary(),
            used: s.minimax_calls_made,
            limit: T4_CALL_LIMIT,
        }
    } else {
        BudgetError::TokenBudgetExceeded {
            provider: arbitrary(),
            needed: estimated,
            remaining: sat_sub(T4_TOKEN_BUDGET, s.minimax_tokens_used),
        }
    }
}

/// `e` is the refusal of a MiniMax reservation of `estimated` tokens in `s`,
/// with the provider named `"minimax"`.
pub open spec fn is_minimax_refusal(e: BudgetError, s: BudgetState, estimated: u32) -> bool {
    match (e, minimax_refusal(s, estimated)) {
        (
            BudgetError::CallLimitExceeded { provider, used, limit },
            BudgetError::CallLimitExceeded { used: u2, limit: l2, .. },
        ) => provider@ == "minimax"@ && used == u2 && limit == l2,
        (
            BudgetError::TokenBudgetExceeded { provider, needed, remaining },
            BudgetError::TokenBudgetExceeded { needed: n2, remaining: r2, .. },
        ) => provider@ == "minimax"@ && needed == n2 && remaining == r2,
        _ => false,
    }
}

/// A Gemini call may be made in `s`: a call and some tokens are left of the
/// cycle's Gemini allowance.
pub open spec fn gemini_callable(s: BudgetState) -> bool {
    &&& s.gemini_calls_made < T3_CALL_LIMIT
    &&& s.gemini_tokens_used < GEMINI_TOKEN_BUDGET
}

/// `e` is the refusal of a Gemini call in `s`, with the provider named
/// `"gemini"`: the call limit where no call is left, else the token budget,
/// where a call needs at least one token and none remains.
pub open spec fn is_gemini_refusal(e: BudgetError, s: BudgetState) -> bool {
    if s.gemini_calls_made >= T3_CALL_LIMIT {
        e matches BudgetError::CallLimitExceeded { provider, used, limit } && provider@ == "gemini"@
            && used == s.gemini_calls_made && limit == T3_CALL_LIMIT
    } else {
        e matches BudgetError::TokenBudgetExceeded { provider, needed, remaining } && provider@
            == "gemini"@ && needed == 1 && remaining == sat_sub(
            GEMINI_TOKEN_BUDGET,
            s.gemini_tokens_used,
        )
    }
}

/// The state after a MiniMax reservation of `estimated` tokens.
pub open spec fn reserved(s: BudgetState, estimated: u32) -> BudgetState {
    BudgetState {
        minimax_calls_made: (s.minimax_calls_made + 1) as u32,
        minimax_tokens_used: (s.minimax_tokens_used + estimated) as u32,
        ..s
    }
}

/// The state after confirming a reservation of `estimated` tokens with the
/// `actual` tokens used: the estimate is taken back and the actual use added,
/// both saturating.
pub open spec fn confirmed(s: BudgetState, estimated: u32, actual: u32) -> BudgetState {
    BudgetState {
        minimax_tokens_used: sat_add(sat_sub(s.minimax_tokens_used, estimated), actual),
        ..s
    }
}

/// The state after giving back an unconfirmed reservation of `estimated`
/// tokens of the given kind: one call and the estimate are taken back,
/// both saturating.
pub open spec fn rolled_back(s: BudgetState, kind: CallType, estimated: u32) -> BudgetState {
    match kind {
        CallType::Gemini => BudgetState {
            gemini_calls_made: sat_sub(s.gemini_calls_made, 1),
            gemini_tokens_used: sat_sub(s.gemini_tokens_used, estimated),
            ..s
        },
        _ => BudgetState {
            minimax_calls_made: sat_sub(s.minimax_calls_made, 1),
            minimax_tokens_used: sat_sub(s.minimax_tokens_used, estimated),
            ..s
        },
    }
}

/// A reservation taken before a provider call. It is either confirmed with
/// the tokens the call used, or released unconfirmed, which gives the
/// reservation back.
pub struct CallGuard {
    call_type: CallType,
    estimated_tokens: u32,
    confirmed: bool,
}

impl CallGuard {
    /// The provider the reservation was taken from.
    pub closed spec fn kind(&self) -> CallType {
        self.call_type
    }

    /// The tokens reserved.
    pub closed spec fn estimated(&self) -> u32 {
        self.estimated_tokens
    }

    /// The reservation has been confirmed.
    pub closed spec fn is_confirmed(&self) -> bool {
        self.confirmed
    }

    /// Reserve a MiniMax call of `estimated_tokens` tokens in `state`, or
    /// say why the budget does not allow it. The call limit is checked
    /// first, then the token budget; `state` changes only on success.
    pub fn reserve_minimax(state: &mut BudgetState, estimated_tokens: u32) -> (r: Result<
        CallGuard,
        BudgetError,
    >)
        ensures
            r is Ok <==> minimax_reservable(*old(state), estimated_tokens),
            r matches Ok(g) ==> {
                &&& *final(state) == reserved(*old(state), estimated_tokens)
                &&& g.kind() == CallType::MiniMax
                &&& g.estimated() == estimated_tokens
                &&& !g.is_confirmed()
            },
            r matches Err(e) ==> {
                &&& *final(state) == *old(state)
                &&& is_minimax_refusal(e, *old(state), estimated_tokens)
            },
    {
        if state.minimax_calls_made >= T4_CALL_LIMIT {
            return Err(
                BudgetError::CallLimitExceeded {
                    provider: String::from_str("minimax"),
                    used: state.minimax_calls_made,
                    limit: T4_CALL_LIMIT,
                },
            );
        }
        if state.minimax_remaining_tokens() < estimated_tokens {
            return Err(
                BudgetError::TokenBudgetExceeded {
                    provider: String::from_str("minimax"),
                    needed: estimated_tokens,
                    remaining: state.minimax_remaining_tokens(),
                },
            );
        }
        state.minimax_calls_made += 1;
        state.minimax_tokens_used += estimated_tokens;
        Ok(CallGuard { call_type: CallType::MiniMax, estimated_tokens, confirmed: false })
    }

    /// Confirm the call: take the estimate back out of `state` and record
    /// the tokens actually used.
    pub fn confirm(&mut self, state: &mut BudgetState, actual_tokens: u32)
        ensures
            *final(state) == confirmed(*old(state), old(self).estimated(), actual_tokens),
            final(self).kind() == old(self).kind(),
            final(self).estimated() == old(self).estimated(),
            final(self).is_confirmed(),
    {
        state.minimax_tokens_used = state.minimax_tokens_used.saturating_sub(
            self.estimated_tokens,
        ).saturating_add(actual_tokens);
        self.confirmed = true;
    }

    /// End the guard. An unconfirmed reservation is given back to `state`;
    /// a confirmed one leaves `state` as it is.
    pub fn release(self, state: &mut BudgetState)
        ensures
            self.is_confirmed() ==> *final(state) == *old(state),
            !self.is_confirmed() ==> *final(state) == rolled_back(
                *old(state),
                self.kind(),
                self.estimated(),
            ),
    {
        if !self.confirmed {
            match self.call_type {
                CallType::MiniMax | CallType::T3MiniMax => {
                    state.minimax_calls_made = state.minimax_calls_made.saturating_sub(1);
                    state.minimax_tokens_used = state.minimax_tokens_used.saturating_sub(
                        self.estimated_tokens,
                    );
                },
                CallType::Gemini => {
                    state.gemini_calls_made = state.gemini_calls_made.saturating_sub(1);
                    state.gemini_tokens_used = state.gemini_tokens_used.saturating_sub(
                        self.estimated_tokens,
                    );
                },
            }
        }
    }
}

/// A reservation that is released without being confirmed leaves no trace:
/// the budget is exactly what it was before the reservation.
pub proof fn lemma_unconfirmed_reservation_restores(s: BudgetState, estimated: u32)
    requires
        minimax_reservable(s, estimated),
    ensures
        rolled_back(reserved(s, estimated), CallType::MiniMax, estimated) == s,
{
}

/// Reserving an estimate and then confirming it with the actual tokens has
/// the same effect as recording the actual tokens after the call, whatever
/// the estimate was.
pub proof fn lemma_confirmed_reservation_records_actual(s: BudgetState, estimated: u32, actual: u32)
    requires
        minimax_reservable(s, estimated),
        s.minimax_tokens_used + actual <= u32::MAX,
    ensures
        confirmed(reserved(s, estimated), estimated, actual) == s.with_minimax_recorded(actual),
{
}

/// A reservation never takes the call count past the cycle's limit, nor the
/// tokens past the cycle's budget where they were within it.
pub proof fn lemma_reservation_stays_within_limits(s: BudgetState, estimated: u32)
    requires
        minimax_reservable(s, estimated),
    ensures
        reserved(s, estimated).minimax_calls_made <= T4_CALL_LIMIT,
        s.minimax_tokens_used <= T4_TOKEN_BUDGET ==> reserved(s, estimated).minimax_tokens_used
            <= T4_TOKEN_BUDGET,
        reserved(s, estimated).gemini_calls_made == s.gemini_calls_made,
        reserved(s, estimated).gemini_tokens_used == s.gemini_tokens_used,
{
}

/// A fresh cycle has the whole allowance of both providers left.
pub proof fn lemma_fresh_cycle_full_allowance()
    ensures
        sat_sub(T4_TOKEN_BUDGET, BudgetState::fresh().minimax_tokens_used) == T4_TOKEN_BUDGET,
        sat_sub(T4_CALL_LIMIT, BudgetState::fresh().minimax_calls_made) == T4_CALL_LIMIT,
        sat_sub(GEMINI_TOKEN_BUDGET, BudgetState::fresh().gemini_tokens_used)
            == GEMINI_TOKEN_BUDGET,
        sat_sub(T3_CALL_LIMIT, BudgetState::fresh().gemini_calls_made) == T3_CALL_LIMIT,
{
}

} // verus!
