//! The ingestion pipeline's entry points: ingesting a thought, writing the
//! diary, the status of entries, the budget, and the synthesis cycle.

use vstd::prelude::*;
use crate::budget::BudgetState;
use crate::clock::{FreshId, fresh_id, fresh_id_after, is_v4_uuid_text, separate_draws};
use crate::router::{BudgetStatus, budget_status};

verus! {

#[derive(Debug, Clone)]
pub struct IngestRequest {
    pub content: String,
    /// "mind_dump" | "url" | "file" | "voice"
    pub source: String,
    pub tags: Vec<String>,
}

#[derive(Debug, Clone)]
pub struct IngestResponse {
    pub note_id: String,
    pub wiki_entry_id: String,
    pub tier_used: String,
    pub provider_used: String,
    pub status: String,
}

#[derive(Debug, Clone)]
pub struct DiaryWriteRequest {
    pub content: String,
    pub date: String,
}

#[derive(Debug, Clone)]
pub struct DiaryWriteResponse {
    pub note_id: String,
    pub status: String,
}

#[derive(Debug, Clone)]
pub struct EntryStatus {
    pub id: String,
    pub status: String,
    pub tier_done: String,
}

#[derive(Debug, Clone)]
pub struct CronRunResult {
    pub entries_processed: u32,
    pub synthesis_count: u32,
    pub errors: Vec<String>,
}

#[derive(Debug, Clone)]
pub struct PipelineError {
    pub code: String,
    pub message: String,
}

/// `resp` carries two separately drawn ids: `note` as its note id and
/// `wiki` as its wiki-entry id.
pub open spec fn has_drawn_ids(resp: IngestResponse, note: FreshId, wiki: FreshId) -> bool {
    &&& separate_draws(note, wiki)
    &&& resp.note_id@ == note.spec_text()
    &&& resp.wiki_entry_id@ == wiki.spec_text()
}

/// Ingest a thought: it gets a note id and, drawn separately, a wiki-entry
/// id, and is reported synthesized at T3 by MiniMax.
pub fn pipeline_ingest(request: IngestRequest) -> (r: Result<IngestResponse, PipelineError>)
    ensures
        r matches Ok(resp) && {
            &&& is_v4_uuid_text(resp.note_id@)
            &&& is_v4_uuid_text(resp.wiki_entry_id@)
            &&& resp.tier_used@ == "t3"@
            &&& resp.provider_used@ == "minimax"@
            &&& resp.status@ == "synthesized"@
        },
        r matches Ok(resp) && exists|note: FreshId, wiki: FreshId| #[trigger]
            has_drawn_ids(resp, note, wiki),
{
    let note = fresh_id();
    let wiki = fresh_id_after(&note);
    let ghost (gn, gw) = (note, wiki);
    let resp = IngestResponse {
        note_id: note.into_text(),
        wiki_entry_id: wiki.into_text(),
        tier_used: String::from_str("t3"),
        provider_used: String::from_str("minimax"),
        status: String::from_str("synthesized"),
    };
    assert(has_drawn_ids(resp, gn, gw));
    Ok(resp)
}

/// Write to the daily diary: raw input, stored as it is, under a freshly
/// drawn note id.
pub fn pipeline_diary_write(request: DiaryWriteRequest) -> (r: Result<
    DiaryWriteResponse,
    PipelineError,
>)
    ensures
        r matches Ok(resp) && is_v4_uuid_text(resp.note_id@) && resp.status@ == "saved"@,
        r matches Ok(resp) && exists|id: FreshId| #[trigger] id.spec_text() == resp.note_id@,
{
    let id = fresh_id();
    let ghost gid = id;
    let resp = DiaryWriteResponse { note_id: id.into_text(), status: String::from_str("saved") };
    assert(gid.spec_text() == resp.note_id@);
    Ok(resp)
}

/// The ids of an ingested thought are two separate draws: the note id is
/// the first draw's text, the wiki-entry id the text of a later draw, so
/// the wiki entry never takes the note's id by construction.
pub proof fn lemma_ingest_ids_separately_drawn(resp: IngestResponse, note: FreshId, wiki: FreshId)
    requires
        has_drawn_ids(resp, note, wiki),
    ensures
        note != wiki,
        resp.note_id@ == note.spec_text(),
        resp.wiki_entry_id@ == wiki.spec_text(),
{
}

/// The status of the entry with id `id`: processing, done through T3.
pub open spec fn is_processing_status(e: EntryStatus, id: Seq<char>) -> bool {
    &&& e.id@ == id
    &&& e.status@ == "processing"@
    &&& e.tier_done@ == "t3"@
}

/// The status of each entry, in the order of `ids`.
pub fn pipeline_status(ids: Vec<String>) -> (r: Result<Vec<EntryStatus>, PipelineError>)
    ensures
        r matches Ok(v) && v@.len() == ids@.len() && forall|i: int|
            0 <= i < ids@.len() ==> is_processing_status(#[trigger] v@[i], ids@[i]@),
{
    let mut out: Vec<EntryStatus> = Vec::new();
    let mut i: usize = 0;
    while i < ids.len()
        invariant
            i <= ids@.len(),
            out@.len() == i,
            forall|k: int| 0 <= k < i ==> is_processing_status(#[trigger] out@[k], ids@[k]@),
        decreases ids@.len() - i,
    {
        out.push(
            EntryStatus {
                id: ids[i].clone(),
                status: String::from_str("processing"),
                tier_done: String::from_str("t3"),
            },
        );
        i = i + 1;
    }
    Ok(out)
}

/// The budget as the dashboard shows it.
pub fn pipeline_budget_status(budget: &BudgetState) -> (r: Result<BudgetStatus, PipelineError>)
    ensures
        r matches Ok(s) && s == budget_status_of(*budget),
{
    Ok(budget_status(budget))
}

/// The dashboard's view of `b`.
pub open spec fn budget_status_of(b: BudgetState) -> BudgetStatus {
    BudgetStatus {
        minimax_calls: b.minimax_calls_made,
        minimax_calls_limit: crate::budget::T4_CALL_LIMIT,
        minimax_tokens: b.minimax_tokens_used,
        minimax_tokens_limit: crate::budget::T4_TOKEN_BUDGET,
        gemini_calls: b.gemini_calls_made,
        gemini_tokens: b.gemini_tokens_used,
        gemini_tokens_limit: 10000,
    }
}

/// Start a synthesis cycle: the budget starts over. No entries are pending
/// yet, so none is processed.
pub fn pipeline_trigger_cron(budget: &mut BudgetState) -> (r: Result<CronRunResult, PipelineError>)
    ensures
        *final(budget) == BudgetState::fresh(),
        r matches Ok(c) && c.entries_processed == 0 && c.synthesis_count == 0 && c.errors@.len()
            == 0,
{
    budget.reset();
    Ok(CronRunResult { entries_processed: 0, synthesis_count: 0, errors: Vec::new() })
}

/// After a synthesis cycle is triggered, the dashboard shows nothing spent
/// against the full limits.
pub proof fn lemma_cron_clears_dashboard(after: BudgetState)
    requires
        after == BudgetState::fresh(),
    ensures
        budget_status_of(after).minimax_calls == 0,
        budget_status_of(after).minimax_tokens == 0,
        budget_status_of(after).gemini_calls == 0,
        budget_status_of(after).gemini_tokens == 0,
        budget_status_of(after).minimax_calls_limit == crate::budget::T4_CALL_LIMIT,
        budget_status_of(after).minimax_tokens_limit == crate::budget::T4_TOKEN_BUDGET,
{
}

} // verus!
