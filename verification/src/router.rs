//! Tier escalation: T1 (classify) → T2 (extract) → T3 (synthesize, with
//! MiniMax, and Gemini where MiniMax fails) → T4 (deep reasoning). The
//! decisions are made here; the application performs each provider call
//! that a step asks for and hands its outcome back.

use vstd::prelude::*;
use vstd::std_specs::convert::FromSpecImpl;
use crate::budget::{
    BudgetError, BudgetState, CallGuard, CallType, T3_CALL_LIMIT, T4_CALL_LIMIT,
    T4_TOKEN_BUDGET,
    budget_error_text, confirmed, gemini_callable, is_gemini_refusal, is_minimax_refusal, minimax_reservable, reserved, rolled_back,
};
use crate::client::{
    Message, MiniMaxClient, MiniMaxError, MiniMaxResponse, conversation_estimate,
    first_choice_text, first_choice_text_of, minimax_error_text,
};
use crate::config::{minimax_model, t3_minimax_config};
use crate::gemini::{GeminiClient, GeminiError, gemini_error_text};

verus! {

/// Where an entry stands in the tier pipeline.
#[derive(Debug, Clone, Copy, PartialEq, Eq, Structural)]
pub enum TierState {
    Pending,
    T1Done,
    T2Done,
    T3Done,
    T4Done,
    JudgeDone,
    Persisted,
}

/// The position of a state in the pipeline, from 0 (pending) to 6
/// (persisted).
pub open spec fn tier_rank(s: TierState) -> nat {
    match s {
        TierState::Pending => 0,
        TierState::T1Done => 1,
        TierState::T2Done => 2,
        TierState::T3Done => 3,
        TierState::T4Done => 4,
        TierState::JudgeDone => 5,
        TierState::Persisted => 6,
    }
}

/// The state that follows `s`; persisted entries stay persisted.
pub open spec fn tier_successor(s: TierState) -> TierState {
    match s {
        TierState::Pending => TierState::T1Done,
        TierState::T1Done => TierState::T2Done,
        TierState::T2Done => TierState::T3Done,
        TierState::T3Done => TierState::T4Done,
        TierState::T4Done => TierState::JudgeDone,
        TierState::JudgeDone => TierState::Persisted,
        TierState::Persisted => TierState::Persisted,
    }
}

/// The name of a state as it is stored.
pub open spec fn tier_label(s: TierState) -> Seq<char> {
    match s {
        TierState::Pending => "PENDING"@,
        TierState::T1Done => "T1_DONE"@,
        TierState::T2Done => "T2_DONE"@,
        TierState::T3Done => "T3_DONE"@,
        TierState::T4Done => "T4_DONE"@,
        TierState::JudgeDone => "JUDGE_DONE"@,
        TierState::Persisted => "PERSISTED"@,
    }
}

/// `s` after `n` steps.
pub open spec fn tier_after(s: TierState, n: nat) -> TierState
    decreases n,
{
    if n == 0 {
        s
    } else {
        tier_successor(tier_after(s, (n - 1) as nat))
    }
}

impl TierState {
    pub fn next(&self) -> (r: Self)
        ensures
            r == tier_successor(*self),
    {
        match self {
            TierState::Pending => TierState::T1Done,
            TierState::T1Done => TierState::T2Done,
            TierState::T2Done => TierState::T3Done,
            TierState::T3Done => TierState::T4Done,
            TierState::T4Done => TierState::JudgeDone,
            TierState::JudgeDone => TierState::Persisted,
            TierState::Persisted => TierState::Persisted,
        }
    }

    pub fn as_str(&self) -> (r: &'static str)
        ensures
            r@ == tier_label(*self),
    {
        match self {
            TierState::Pending => "PENDING",
            TierState::T1Done => "T1_DONE",
            TierState::T2Done => "T2_DONE",
            TierState::T3Done => "T3_DONE",
            TierState::T4Done => "T4_DONE",
            TierState::JudgeDone => "JUDGE_DONE",
            TierState::Persisted => "PERSISTED",
        }
    }
}

/// Each step moves an entry exactly one tier on, until it is persisted,
/// where it stays.
pub proof fn lemma_tier_step(s: TierState)
    ensures
        tier_rank(tier_successor(s)) == if tier_rank(s) < 6 { tier_rank(s) + 1 } else { 6 },
        s == TierState::Persisted <==> tier_successor(s) == s,
{
}

/// Any entry is persisted after six steps, and a persisted entry stays so.
pub proof fn lemma_tier_reaches_persisted(s: TierState, n: nat)
    requires
        n >= 6,
    ensures
        tier_after(s, n) == TierState::Persisted,
    decreases n,
{
    reveal_with_fuel(tier_after, 7);
    if n > 6 {
        lemma_tier_reaches_persisted(s, (n - 1) as nat);
    }
}

/// Distinct states have distinct stored names.
pub proof fn lemma_tier_labels_distinct(a: TierState, b: TierState)
    requires
        a != b,
    ensures
        tier_label(a) != tier_label(b),
{
    reveal_strlit("PENDING");
    reveal_strlit("T1_DONE");
    reveal_strlit("T2_DONE");
    reveal_strlit("T3_DONE");
    reveal_strlit("T4_DONE");
    reveal_strlit("JUDGE_DONE");
    reveal_strlit("PERSISTED");
    assert(tier_label(a).len() != tier_label(b).len() || tier_label(a)[0] != tier_label(b)[0]
        || tier_label(a)[1] != tier_label(b)[1]);
}

/// Why a tier call failed.
#[derive(Debug, Clone)]
pub enum TierError {
    BudgetError(BudgetError),
    ProviderError(String),
}

/// The text of a tier error, as it is shown to the user.
pub open spec fn tier_error_text(e: TierError) -> Seq<char> {
    match e {
        TierError::BudgetError(b) => "Budget error: "@ + budget_error_text(b),
        TierError::ProviderError(m) => "Provider error: "@ + m@,
    }
}

impl TierError {
    /// The text of this error, as it is shown to the user.
    pub fn message(&self) -> (r: String)
        ensures
            r@ == tier_error_text(*self),
    {
        match self {
            TierError::BudgetError(b) => {
                let mut s = String::from_str("Budget error: ");
                let m = b.message();
                s.append(m.as_str());
                s
            },
            TierError::ProviderError(m) => {
                let mut s = String::from_str("Provider error: ");
                s.append(m.as_str());
                s
            },
        }
    }
}

impl From<BudgetError> for TierError {
    fn from(e: BudgetError) -> (r: TierError) {
        TierError::BudgetError(e)
    }
}

impl FromSpecImpl<BudgetError> for TierError {
    open spec fn obeys_from_spec() -> bool {
        true
    }

    open spec fn from_spec(v: BudgetError) -> TierError {
        TierError::BudgetError(v)
    }
}

/// The outputs of a completed pipeline run.
#[derive(Debug, Clone)]
pub struct PipelineResult {
    pub t1_result: String,
    pub t2_result: String,
    pub t3_result: String,
    pub t4_result: String,
    pub tier_used: String,
    pub provider_used: String,
}

/// What the budget dashboard shows.
#[derive(Debug, Clone, Copy)]
pub struct BudgetStatus {
    pub minimax_calls: u32,
    pub minimax_calls_limit: u32,
    pub minimax_tokens: u32,
    pub minimax_tokens_limit: u32,
    pub gemini_calls: u32,
    pub gemini_tokens: u32,
    pub gemini_tokens_limit: u32,
}

/// The dashboard's view of a budget: what was spent, beside the limits.
pub fn budget_status(state: &BudgetState) -> (r: BudgetStatus)
    ensures
        r.minimax_calls == state.minimax_calls_made,
        r.minimax_calls_limit == T4_CALL_LIMIT,
        r.minimax_tokens == state.minimax_tokens_used,
        r.minimax_tokens_limit == T4_TOKEN_BUDGET,
        r.gemini_calls == state.gemini_calls_made,
        r.gemini_tokens == state.gemini_tokens_used,
        r.gemini_tokens_limit == 10000,
{
    BudgetStatus {
        minimax_calls: state.minimax_calls_made,
        minimax_calls_limit: T4_CALL_LIMIT,
        minimax_tokens: state.minimax_tokens_used,
        minimax_tokens_limit: T4_TOKEN_BUDGET,
        gemini_calls: state.gemini_calls_made,
        gemini_tokens: state.gemini_tokens_used,
        gemini_tokens_limit: 10000,
    }
}

// ---------------------------------------------------------------------------
// Prompts
// ---------------------------------------------------------------------------

pub open spec fn classify_prompt() -> Seq<char> {
    "Classify this thought. Return JSON: {\"tags\": [...], \"type\": \"fact|belief|question|idea\"}"@
}

pub open spec fn extract_prompt() -> Seq<char> {
    "Extract claims and relationships. Return JSON: {\"claims\": [...], \"relationships\": [...]}"@
}

pub open spec fn reasoning_prompt() -> Seq<char> {
    "You are a deep reasoning engine. Expand on this synthesis with critical analysis."@
}

/// The request for a synthesis of the first two tiers' outputs.
pub open spec fn synthesis_request(t1: Seq<char>, t2: Seq<char>) -> Seq<char> {
    "T1: "@ + t1 + "\n\nT2: "@ + t2 + "\n\nGenerate a synthesis."@
}

/// `msgs` is a system message with `system` followed by a user message
/// with `user`.
pub open spec fn is_prompt_pair(msgs: Seq<Message>, system: Seq<char>, user: Seq<char>) -> bool {
    &&& msgs.len() == 2
    &&& msgs[0].role@ == "system"@
    &&& msgs[0].content@ == system
    &&& msgs[1].role@ == "user"@
    &&& msgs[1].content@ == user
}

fn prompt_pair(system: &str, user: &str) -> (r: Vec<Message>)
    ensures
        is_prompt_pair(r@, system@, user@),
{
    let mut v: Vec<Message> = Vec::new();
    v.push(Message::new("system", system));
    v.push(Message::new("user", user));
    v
}

/// T1: quick classification and tagging of `content`.
pub fn t1_messages(content: &str) -> (r: Vec<Message>)
    ensures
        is_prompt_pair(r@, classify_prompt(), content@),
{
    prompt_pair(
        "Classify this thought. Return JSON: {\"tags\": [...], \"type\": \"fact|belief|question|idea\"}",
        content,
    )
}

/// T2: extraction of claims and relationships from `content`.
pub fn t2_messages(content: &str) -> (r: Vec<Message>)
    ensures
        is_prompt_pair(r@, extract_prompt(), content@),
{
    prompt_pair(
        "Extract claims and relationships. Return JSON: {\"claims\": [...], \"relationships\": [...]}",
        content,
    )
}

/// The synthesis request for the outputs of T1 and T2.
pub fn synthesis_prompt(t1_result: &str, t2_result: &str) -> (r: String)
    ensures
        r@ == synthesis_request(t1_result@, t2_result@),
{
    let mut s = String::from_str("T1: ");
    s.append(t1_result);
    s.append("\n\nT2: ");
    s.append(t2_result);
    s.append("\n\nGenerate a synthesis.");
    s
}

/// T3 on MiniMax: the synthesis configuration's model name as the system
/// message, and the synthesis request.
pub fn t3_messages(t1_result: &str, t2_result: &str) -> (r: Vec<Message>)
    ensures
        is_prompt_pair(r@, minimax_model(), synthesis_request(t1_result@, t2_result@)),
{
    let config = t3_minimax_config();
    let request = synthesis_prompt(t1_result, t2_result);
    prompt_pair(config.model.as_str(), request.as_str())
}

/// T4: deep reasoning over the synthesis.
pub fn t4_messages(synthesis: &str) -> (r: Vec<Message>)
    ensures
        is_prompt_pair(r@, reasoning_prompt(), synthesis@),
{
    prompt_pair(
        "You are a deep reasoning engine. Expand on this synthesis with critical analysis.",
        synthesis,
    )
}

// ---------------------------------------------------------------------------
// Single provider calls
// ---------------------------------------------------------------------------

/// How a MiniMax call of a tier is made.
#[derive(Debug, Clone, Copy, PartialEq, Eq, Structural)]
pub enum MiniMaxProfile {
    /// T1 and T2: the default client and its configuration.
    Standard,
    /// T3: a client of its own with the synthesis configuration.
    Synthesis,
    /// T4: the default client, with an 8192-token answer.
    Deep,
}

/// The `max_tokens` a profile asks for in place of the configuration's.
pub open spec fn profile_max_tokens(p: MiniMaxProfile) -> Option<u32> {
    match p {
        MiniMaxProfile::Deep => Some(8192),
        _ => None,
    }
}

pub fn max_tokens_override(profile: MiniMaxProfile) -> (r: Option<u32>)
    ensures
        r == profile_max_tokens(profile),
{
    match profile {
        MiniMaxProfile::Deep => Some(8192),
        _ => None,
    }
}

/// The refusal of a call for want of a client.
pub open spec fn is_provider_error(e: TierError, text: Seq<char>) -> bool {
    e matches TierError::ProviderError(m) && m@ == text
}

/// The reservation refused by the budget, as a tier error.
pub open spec fn is_budget_refusal(e: TierError, s: BudgetState, estimated: u32) -> bool {
    e matches TierError::BudgetError(b) && is_minimax_refusal(b, s, estimated)
}

/// What starting a MiniMax call with estimate `estimated` does to `old` and
/// returns, for a client that is there.
pub open spec fn reservation_outcome(
    old: BudgetState,
    new: BudgetState,
    estimated: u32,
    r: Result<CallGuard, TierError>,
) -> bool {
    &&& r is Ok <==> minimax_reservable(old, estimated)
    &&& r matches Ok(g) ==> {
        &&& new == reserved(old, estimated)
        &&& g.kind() == CallType::MiniMax
        &&& g.estimated() == estimated
        &&& !g.is_confirmed()
    }
    &&& r matches Err(e) ==> new == old && is_budget_refusal(e, old, estimated)
}

fn reserve_for(budget: &mut BudgetState, client: &MiniMaxClient, messages: &Vec<Message>) -> (r:
    Result<CallGuard, TierError>)
    requires
        conversation_estimate(messages@) <= u32::MAX,
    ensures
        reservation_outcome(
            *old(budget),
            *final(budget),
            conversation_estimate(messages@) as u32,
            r,
        ),
{
    let estimated = client.estimate_tokens(messages.as_slice());
    match CallGuard::reserve_minimax(budget, estimated) {
        Ok(g) => Ok(g),
        Err(e) => Err(TierError::BudgetError(e)),
    }
}

/// Start a T1, T2 or T4 call: with no client the call fails at once;
/// otherwise the conversation's estimate is reserved, or the budget's
/// refusal is returned.
pub fn begin_minimax_call(
    budget: &mut BudgetState,
    client: Option<&MiniMaxClient>,
    messages: &Vec<Message>,
) -> (r: Result<CallGuard, TierError>)
    requires
        conversation_estimate(messages@) <= u32::MAX,
    ensures
        client is None ==> *final(budget) == *old(budget) && is_provider_error(
            r->Err_0,
            "MiniMax client not initialized (reqwest failed to build)"@,
        ) && r is Err,
        client is Some ==> reservation_outcome(
            *old(budget),
            *final(budget),
            conversation_estimate(messages@) as u32,
            r,
        ),
{
    match client {
        None => Err(
            TierError::ProviderError(
                String::from_str("MiniMax client not initialized (reqwest failed to build)"),
            ),
        ),
        Some(c) => reserve_for(budget, c, messages),
    }
}

/// Start a T3 call on the synthesis client, which was built for this call:
/// where building it failed, the call fails with that error; otherwise as
/// `begin_minimax_call`.
pub fn begin_synthesis_call(
    budget: &mut BudgetState,
    client: &Result<MiniMaxClient, MiniMaxError>,
    messages: &Vec<Message>,
) -> (r: Result<CallGuard, TierError>)
    requires
        conversation_estimate(messages@) <= u32::MAX,
    ensures
        client matches Err(e) ==> *final(budget) == *old(budget) && is_provider_error(
            r->Err_0,
            "MiniMax T3 client init failed: "@ + minimax_error_text(*e),
        ) && r is Err,
        client is Ok ==> reservation_outcome(
            *old(budget),
            *final(budget),
            conversation_estimate(messages@) as u32,
            r,
        ),
{
    match client {
        Err(e) => {
            let mut m = String::from_str("MiniMax T3 client init failed: ");
            let t = e.message();
            m.append(t.as_str());
            Err(TierError::ProviderError(m))
        },
        Ok(c) => reserve_for(budget, c, messages),
    }
}

/// Finish a MiniMax call with the endpoint's outcome. A failed call gives
/// its reservation back and fails with the error's text; a completed call
/// confirms the reservation with the tokens the endpoint reports and yields
/// the first choice's text.
pub fn finish_minimax_call(
    budget: &mut BudgetState,
    guard: CallGuard,
    response: Result<MiniMaxResponse, MiniMaxError>,
) -> (r: Result<String, TierError>)
    requires
        !guard.is_confirmed(),
    ensures
        response matches Err(e) ==> {
            &&& *final(budget) == rolled_back(*old(budget), guard.kind(), guard.estimated())
            &&& r is Err
            &&& is_provider_error(r->Err_0, minimax_error_text(e))
        },
        response matches Ok(resp) ==> {
            &&& *final(budget) == confirmed(
                *old(budget),
                guard.estimated(),
                resp.usage.total_tokens,
            )
            &&& r matches Ok(text) && text@ == first_choice_text_of(resp.choices@)
        },
{
    match response {
        Err(e) => {
            guard.release(budget);
            Err(TierError::ProviderError(e.message()))
        },
        Ok(resp) => {
            let mut guard = guard;
            guard.confirm(budget, resp.usage.total_tokens);
            guard.release(budget);
            Ok(first_choice_text(&resp.choices))
        },
    }
}

/// Start a Gemini call. Where the cycle's Gemini calls or tokens are used
/// up the call is refused by the budget; otherwise, with no client, it fails
/// at once. The budget is only read here: it records the call when it ends.
pub fn begin_gemini_call(budget: &BudgetState, client: Option<&GeminiClient>) -> (r: Result<
    (),
    TierError,
>)
    ensures
        !gemini_callable(*budget) ==> (r matches Err(TierError::BudgetError(b))
            && is_gemini_refusal(b, *budget)),
        gemini_callable(*budget) ==> (client is Some <==> r is Ok),
        gemini_callable(*budget) && client is None ==> is_provider_error(
            r->Err_0,
            "Gemini client not initialized (reqwest failed to build)"@,
        ),
{
    if budget.gemini_calls_made >= T3_CALL_LIMIT {
        return Err(
            TierError::BudgetError(
                BudgetError::CallLimitExceeded {
                    provider: String::from_str("gemini"),
                    used: budget.gemini_calls_made,
                    limit: T3_CALL_LIMIT,
                },
            ),
        );
    }
    let remaining = budget.gemini_remaining_tokens();
    if remaining == 0 {
        return Err(
            TierError::BudgetError(
                BudgetError::TokenBudgetExceeded {
                    provider: String::from_str("gemini"),
                    needed: 1,
                    remaining,
                },
            ),
        );
    }
    match client {
        None => Err(
            TierError::ProviderError(
                String::from_str("Gemini client not initialized (reqwest failed to build)"),
            ),
        ),
        Some(_) => Ok(()),
    }
}

/// Finish a Gemini call with the endpoint's outcome: a completed call is
/// recorded in the budget with the tokens it reports and yields its text; a
/// failed one fails with the error's text and leaves the budget alone.
pub fn finish_gemini_call(budget: &mut BudgetState, response: Result<(String, u32), GeminiError>) -> (r:
    Result<String, TierError>)
    requires
        response matches Ok((_, tokens)) ==> old(budget).gemini_calls_made < u32::MAX
            && old(budget).gemini_tokens_used + tokens <= u32::MAX,
    ensures
        response matches Err(e) ==> *final(budget) == *old(budget) && r is Err
            && is_provider_error(r->Err_0, gemini_error_text(e)),
        response matches Ok((text, tokens)) ==> *final(budget) == old(
            budget,
        ).with_gemini_recorded(tokens) && r == Ok::<String, TierError>(text),
{
    match response {
        Err(e) => Err(TierError::ProviderError(e.message())),
        Ok((text, tokens)) => {
            budget.record_gemini(tokens);
            Ok(text)
        },
    }
}

/// After T3 on MiniMax: its synthesis where it succeeded, or else the
/// request the synthesis is retried with on Gemini.
pub fn synthesis_retry(
    t1_result: &str,
    t2_result: &str,
    minimax: Result<String, TierError>,
) -> (r: Result<String, String>)
    ensures
        minimax matches Ok(s) ==> r == Ok::<String, String>(s),
        minimax is Err ==> (r matches Err(p) && p@ == synthesis_request(t1_result@, t2_result@)),
{
    match minimax {
        Ok(s) => Ok(s),
        Err(_) => Err(synthesis_prompt(t1_result, t2_result)),
    }
}

// ---------------------------------------------------------------------------
// The full pipeline
// ---------------------------------------------------------------------------

/// The step a pipeline run is at.
#[derive(Debug, Clone, Copy, PartialEq, Eq, Structural)]
pub enum PipelineStage {
    /// T1 on MiniMax.
    Classify,
    /// T2 on MiniMax.
    Extract,
    /// T3 on MiniMax.
    Synthesize,
    /// T3 retried on Gemini after MiniMax failed.
    SynthesizeFallback,
    /// T4 on MiniMax.
    Reason,
    /// The run has its outcome.
    Finished,
}

/// The provider call a pipeline run asks for next.
pub enum TierAction {
    CallMiniMax { profile: MiniMaxProfile, messages: Vec<Message> },
    CallGemini { prompt: String },
    Finish,
}

/// A run of the pipeline T1 → T2 → T3 → T4 over one piece of content.
pub struct PipelineRun {
    content: String,
    stage: PipelineStage,
    t1: String,
    t2: String,
    t3: String,
    outcome: Option<Result<PipelineResult, TierError>>,
}

/// The calls left at most before a run at this stage finishes.
pub open spec fn stage_measure(s: PipelineStage) -> nat {
    match s {
        PipelineStage::Classify => 5,
        PipelineStage::Extract => 4,
        PipelineStage::Synthesize => 3,
        PipelineStage::SynthesizeFallback => 2,
        PipelineStage::Reason => 1,
        PipelineStage::Finished => 0,
    }
}

impl PipelineRun {
    pub closed spec fn spec_content(&self) -> Seq<char> {
        self.content@
    }

    pub closed spec fn spec_stage(&self) -> PipelineStage {
        self.stage
    }

    /// The output of T1, once it is there.
    pub closed spec fn spec_t1(&self) -> Seq<char> {
        self.t1@
    }

    /// The output of T2, once it is there.
    pub closed spec fn spec_t2(&self) -> Seq<char> {
        self.t2@
    }

    /// The output of T3, once it is there.
    pub closed spec fn spec_t3(&self) -> Seq<char> {
        self.t3@
    }

    pub closed spec fn spec_outcome(&self) -> Option<Result<PipelineResult, TierError>> {
        self.outcome
    }

    /// The run has its outcome exactly when it is finished.
    pub closed spec fn well_formed(&self) -> bool {
        (self.stage == PipelineStage::Finished) == (self.outcome is Some)
    }

    /// A run over `content`, about to ask for T1.
    pub fn start(content: &str) -> (r: PipelineRun)
        ensures
            r.well_formed(),
            r.spec_stage() == PipelineStage::Classify,
            r.spec_content() == content@,
            r.spec_outcome() is None,
    {
        PipelineRun {
            content: String::from_str(content),
            stage: PipelineStage::Classify,
            t1: String::new(),
            t2: String::new(),
            t3: String::new(),
            outcome: None,
        }
    }

    pub fn stage(&self) -> (r: PipelineStage)
        ensures
            r == self.spec_stage(),
    {
        self.stage
    }

    pub fn is_finished(&self) -> (r: bool)
        ensures
            r == (self.spec_stage() == PipelineStage::Finished),
    {
        self.stage == PipelineStage::Finished
    }

    /// The outcome of the run; `None` until it is finished.
    pub fn into_outcome(self) -> (r: Option<Result<PipelineResult, TierError>>)
        ensures
            r == self.spec_outcome(),
    {
        self.outcome
    }

    /// The call this run asks for next.
    pub fn next_action(&self) -> (a: TierAction)
        ensures
            action_for(*self, a),
    {
        match self.stage {
            PipelineStage::Classify => TierAction::CallMiniMax {
                profile: MiniMaxProfile::Standard,
                messages: t1_messages(self.content.as_str()),
            },
            PipelineStage::Extract => TierAction::CallMiniMax {
                profile: MiniMaxProfile::Standard,
                messages: t2_messages(self.content.as_str()),
            },
            PipelineStage::Synthesize => TierAction::CallMiniMax {
                profile: MiniMaxProfile::Synthesis,
                messages: t3_messages(self.t1.as_str(), self.t2.as_str()),
            },
            PipelineStage::SynthesizeFallback => TierAction::CallGemini {
                prompt: synthesis_prompt(self.t1.as_str(), self.t2.as_str()),
            },
            PipelineStage::Reason => TierAction::CallMiniMax {
                profile: MiniMaxProfile::Deep,
                messages: t4_messages(self.t3.as_str()),
            },
            PipelineStage::Finished => TierAction::Finish,
        }
    }

    /// Take the outcome of the call this run asked for.
    pub fn advance(&mut self, result: Result<String, TierError>)
        requires
            old(self).well_formed(),
            old(self).spec_stage() != PipelineStage::Finished,
        ensures
            final(self).well_formed(),
            advanced(*old(self), *final(self), result),
    {
        match self.stage {
            PipelineStage::Classify => match result {
                Ok(s) => {
                    self.t1 = s;
                    self.stage = PipelineStage::Extract;
                },
                Err(e) => {
                    self.outcome = Some(Err(e));
                    self.stage = PipelineStage::Finished;
                },
            },
            PipelineStage::Extract => match result {
                Ok(s) => {
                    self.t2 = s;
                    self.stage = PipelineStage::Synthesize;
                },
                Err(e) => {
                    self.outcome = Some(Err(e));
                    self.stage = PipelineStage::Finished;
                },
            },
            PipelineStage::Synthesize => match result {
                Ok(s) => {
                    self.t3 = s;
                    self.stage = PipelineStage::Reason;
                },
                Err(_) => {
                    self.stage = PipelineStage::SynthesizeFallback;
                },
            },
            PipelineStage::SynthesizeFallback => match result {
                Ok(s) => {
                    self.t3 = s;
                    self.stage = PipelineStage::Reason;
                },
                Err(e) => {
                    self.outcome = Some(Err(e));
                    self.stage = PipelineStage::Finished;
                },
            },
            PipelineStage::Reason => match result {
                Ok(s) => {
                    let r = PipelineResult {
                        t1_result: self.t1.clone(),
                        t2_result: self.t2.clone(),
                        t3_result: self.t3.clone(),
                        t4_result: s,
                        tier_used: String::from_str("t4"),
                        provider_used: String::from_str("minimax"),
                    };
                    self.outcome = Some(Ok(r));
                    self.stage = PipelineStage::Finished;
                },
                Err(e) => {
                    self.outcome = Some(Err(e));
                    self.stage = PipelineStage::Finished;
                },
            },
            PipelineStage::Finished => {},
        }
    }
}

/// `a` is the call asked for by `run` at its stage.
pub open spec fn action_for(run: PipelineRun, a: TierAction) -> bool {
    match run.spec_stage() {
        PipelineStage::Classify => a matches TierAction::CallMiniMax { profile, messages }
            && profile == MiniMaxProfile::Standard && is_prompt_pair(
            messages@,
            classify_prompt(),
            run.spec_content(),
        ),
        PipelineStage::Extract => a matches TierAction::CallMiniMax { profile, messages }
            && profile == MiniMaxProfile::Standard && is_prompt_pair(
            messages@,
            extract_prompt(),
            run.spec_content(),
        ),
        PipelineStage::Synthesize => a matches TierAction::CallMiniMax { profile, messages }
            && profile == MiniMaxProfile::Synthesis && is_prompt_pair(
            messages@,
            minimax_model(),
            synthesis_request(run.spec_t1(), run.spec_t2()),
        ),
        PipelineStage::SynthesizeFallback => a matches TierAction::CallGemini { prompt }
            && prompt@ == synthesis_request(run.spec_t1(), run.spec_t2()),
        PipelineStage::Reason => a matches TierAction::CallMiniMax { profile, messages }
            && profile == MiniMaxProfile::Deep && is_prompt_pair(
            messages@,
            reasoning_prompt(),
            run.spec_t3(),
        ),
        PipelineStage::Finished => a is Finish,
    }
}

/// `new` is `old` after the call it asked for ended with `result`.
pub open spec fn advanced(old: PipelineRun, new: PipelineRun, result: Result<String, TierError>) -> bool {
    &&& new.spec_content() == old.spec_content()
    &&& match old.spec_stage() {
        PipelineStage::Classify => match result {
            Ok(s) => new.spec_stage() == PipelineStage::Extract && new.spec_t1() == s@
                && new.spec_outcome() is None,
            Err(e) => new.spec_stage() == PipelineStage::Finished && new.spec_outcome() == Some(
                Err::<PipelineResult, TierError>(e),
            ),
        },
        PipelineStage::Extract => match result {
            Ok(s) => new.spec_stage() == PipelineStage::Synthesize && new.spec_t1()
                == old.spec_t1() && new.spec_t2() == s@ && new.spec_outcome() is None,
            Err(e) => new.spec_stage() == PipelineStage::Finished && new.spec_outcome() == Some(
                Err::<PipelineResult, TierError>(e),
            ),
        },
        PipelineStage::Synthesize => match result {
            Ok(s) => new.spec_stage() == PipelineStage::Reason && new.spec_t1() == old.spec_t1()
                && new.spec_t2() == old.spec_t2() && new.spec_t3() == s@ && new.spec_outcome() is None,
            Err(_) => new.spec_stage() == PipelineStage::SynthesizeFallback && new.spec_t1()
                == old.spec_t1() && new.spec_t2() == old.spec_t2() && new.spec_outcome() is None,
        },
        PipelineStage::SynthesizeFallback => match result {
            Ok(s) => new.spec_stage() == PipelineStage::Reason && new.spec_t1() == old.spec_t1()
                && new.spec_t2() == old.spec_t2() && new.spec_t3() == s@ && new.spec_outcome() is None,
            Err(e) => new.spec_stage() == PipelineStage::Finished && new.spec_outcome() == Some(
                Err::<PipelineResult, TierError>(e),
            ),
        },
        PipelineStage::Reason => match result {
            Ok(s) => new.spec_stage() == PipelineStage::Finished && (new.spec_outcome() matches Some(
                Ok(r),
            ) && r.t1_result@ == old.spec_t1() && r.t2_result@ == old.spec_t2() && r.t3_result@
                == old.spec_t3() && r.t4_result == s && r.tier_used@ == "t4"@ && r.provider_used@
                == "minimax"@),
            Err(e) => new.spec_stage() == PipelineStage::Finished && new.spec_outcome() == Some(
                Err::<PipelineResult, TierError>(e),
            ),
        },
        PipelineStage::Finished => false,
    }
}

/// Each tier asks MiniMax with its own prompt: T1 asks for a classification
/// of the content, T2 for the claims and relationships in the content, and
/// T4 for a critical analysis of the synthesis; each of these calls is a
/// system message with the tier's instruction followed by a user message.
/// T3 asks MiniMax's synthesis model, and on its failure Gemini, for a
/// synthesis of T1's and T2's answers, in that order; a finished run asks
/// for nothing.
pub proof fn lemma_each_tier_asks_its_own_prompt(run: PipelineRun, a: TierAction)
    requires
        action_for(run, a),
    ensures
        run.spec_stage() == PipelineStage::Classify ==> (a matches TierAction::CallMiniMax {
            profile,
            messages,
        } && profile == MiniMaxProfile::Standard && messages@.len() == 2
            && messages@[0].role@ == "system"@ && messages@[0].content@
            == "Classify this thought. Return JSON: {\"tags\": [...], \"type\": \"fact|belief|question|idea\"}"@
            && messages@[1].role@ == "user"@ && messages@[1].content@ == run.spec_content()),
        run.spec_stage() == PipelineStage::Extract ==> (a matches TierAction::CallMiniMax {
            profile,
            messages,
        } && profile == MiniMaxProfile::Standard && messages@.len() == 2
            && messages@[0].role@ == "system"@ && messages@[0].content@
            == "Extract claims and relationships. Return JSON: {\"claims\": [...], \"relationships\": [...]}"@
            && messages@[1].role@ == "user"@ && messages@[1].content@ == run.spec_content()),
        run.spec_stage() == PipelineStage::Reason ==> (a matches TierAction::CallMiniMax {
            profile,
            messages,
        } && profile == MiniMaxProfile::Deep && messages@.len() == 2 && messages@[0].role@
            == "system"@ && messages@[0].content@
            == "You are a deep reasoning engine. Expand on this synthesis with critical analysis."@
            && messages@[1].role@ == "user"@ && messages@[1].content@ == run.spec_t3()),
        run.spec_stage() == PipelineStage::Synthesize ==> (a matches TierAction::CallMiniMax {
            profile,
            messages,
        } && profile == MiniMaxProfile::Synthesis && messages@.len() == 2 && messages@[0].role@
            == "system"@ && messages@[0].content@ == "MiniMax-M2.7-highspeed"@
            && messages@[1].role@ == "user"@ && messages@[1].content@ == "T1: "@ + run.spec_t1()
            + "\n\nT2: "@ + run.spec_t2() + "\n\nGenerate a synthesis."@),
        run.spec_stage() == PipelineStage::SynthesizeFallback ==> (a matches TierAction::CallGemini {
            prompt,
        } && prompt@ == "T1: "@ + run.spec_t1() + "\n\nT2: "@ + run.spec_t2()
            + "\n\nGenerate a synthesis."@),
        run.spec_stage() == PipelineStage::Finished ==> a is Finish,
{
}

/// T2 does not repeat T1: after T1 succeeds, the next call asks about the
/// same content with a different instruction, and the run keeps T1's
/// answer for the synthesis.
pub proof fn lemma_t2_differs_from_t1(
    r0: PipelineRun,
    r1: PipelineRun,
    t1: String,
    a0: TierAction,
    a1: TierAction,
)
    requires
        r0.spec_stage() == PipelineStage::Classify,
        advanced(r0, r1, Ok(t1)),
        action_for(r0, a0),
        action_for(r1, a1),
    ensures
        a0 matches TierAction::CallMiniMax { messages: m0, .. } && a1 matches TierAction::CallMiniMax {
            messages: m1,
            ..
        } && m0@.len() == 2 && m1@.len() == 2 && m1@[1].content@ == m0@[1].content@
            && m1@[0].content@ != m0@[0].content@,
        r1.spec_t1() == t1@,
{
    lemma_each_tier_asks_its_own_prompt(r0, a0);
    lemma_each_tier_asks_its_own_prompt(r1, a1);
    reveal_strlit(
        "Classify this thought. Return JSON: {\"tags\": [...], \"type\": \"fact|belief|question|idea\"}",
    );
    reveal_strlit(
        "Extract claims and relationships. Return JSON: {\"claims\": [...], \"relationships\": [...]}",
    );
    assert("Classify this thought. Return JSON: {\"tags\": [...], \"type\": \"fact|belief|question|idea\"}"@[0]
        != "Extract claims and relationships. Return JSON: {\"claims\": [...], \"relationships\": [...]}"@[0]);
}

/// Every call brings a run closer to its end: a run finishes after at most
/// five calls.
pub proof fn lemma_pipeline_progresses(
    old: PipelineRun,
    new: PipelineRun,
    result: Result<String, TierError>,
)
    requires
        advanced(old, new, result),
    ensures
        stage_measure(new.spec_stage()) < stage_measure(old.spec_stage()),
{
}

/// Gemini is asked only for the synthesis, and only after MiniMax failed it.
pub proof fn lemma_gemini_only_after_minimax_synthesis_fails(
    old: PipelineRun,
    new: PipelineRun,
    result: Result<String, TierError>,
)
    requires
        advanced(old, new, result),
        new.spec_stage() == PipelineStage::SynthesizeFallback,
    ensures
        old.spec_stage() == PipelineStage::Synthesize,
        result is Err,
{
}

/// A failure of T1, T2, T4 or of the Gemini retry ends the run with that
/// very error; a MiniMax synthesis failure alone does not end it.
pub proof fn lemma_failures_end_the_run(
    old: PipelineRun,
    new: PipelineRun,
    e: TierError,
)
    requires
        advanced(old, new, Err(e)),
    ensures
        old.spec_stage() == PipelineStage::Synthesize ==> new.spec_outcome() is None,
        old.spec_stage() != PipelineStage::Synthesize ==> new.spec_outcome() == Some(
            Err::<PipelineResult, TierError>(e),
        ),
{
}

/// A run succeeds only through T4: a successful outcome carries the outputs
/// of T1, T2 and T3 that the run collected and T4's answer, and names tier
/// "t4" and provider "minimax", also where Gemini wrote the synthesis.
pub proof fn lemma_success_only_through_t4(
    old: PipelineRun,
    new: PipelineRun,
    result: Result<String, TierError>,
)
    requires
        advanced(old, new, result),
        new.spec_outcome() matches Some(Ok(_)),
    ensures
        old.spec_stage() == PipelineStage::Reason,
        result matches Ok(t4) && new.spec_outcome() matches Some(Ok(r)) && r.t1_result@
            == old.spec_t1() && r.t2_result@ == old.spec_t2() && r.t3_result@ == old.spec_t3()
            && r.t4_result == t4 && r.tier_used@ == "t4"@ && r.provider_used@ == "minimax"@,
{
}

/// A run whose four MiniMax calls all succeed ends with exactly their
/// answers, in order.
pub proof fn lemma_all_tiers_succeed(
    r0: PipelineRun,
    r1: PipelineRun,
    r2: PipelineRun,
    r3: PipelineRun,
    r4: PipelineRun,
    a1: String,
    a2: String,
    a3: String,
    a4: String,
)
    requires
        r0.spec_stage() == PipelineStage::Classify,
        advanced(r0, r1, Ok(a1)),
        advanced(r1, r2, Ok(a2)),
        advanced(r2, r3, Ok(a3)),
        advanced(r3, r4, Ok(a4)),
    ensures
        r4.spec_stage() == PipelineStage::Finished,
        r4.spec_outcome() matches Some(Ok(r)) && r.t1_result@ == a1@ && r.t2_result@ == a2@
            && r.t3_result@ == a3@ && r.t4_result == a4,
{
}

/// Where MiniMax fails the synthesis and Gemini writes it, the run goes on
/// to T4 with Gemini's synthesis.
pub proof fn lemma_gemini_synthesis_feeds_t4(
    r2: PipelineRun,
    r3: PipelineRun,
    r4: PipelineRun,
    e: TierError,
    g: String,
)
    requires
        r2.spec_stage() == PipelineStage::Synthesize,
        advanced(r2, r3, Err(e)),
        advanced(r3, r4, Ok(g)),
    ensures
        r4.spec_stage() == PipelineStage::Reason,
        r4.spec_t3() == g@,
        r4.spec_t1() == r2.spec_t1(),
        r4.spec_t2() == r2.spec_t2(),
{
}

} // verus!
