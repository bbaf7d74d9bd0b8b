//! The pipeline commands: the front end's request and response types, and
//! their passage to and from the pipeline.

use vstd::prelude::*;
use crate::budget::BudgetState;
use crate::clock::{FreshId, is_v4_uuid_text, separate_draws};
use crate::pipeline::{
    DiaryWriteRequest, IngestRequest, budget_status_of, has_drawn_ids,
    pipeline_budget_status as core_budget_status, pipeline_diary_write as core_diary_write,
    pipeline_ingest as core_ingest, pipeline_status as core_status,
    pipeline_trigger_cron as core_trigger_cron,
};
use crate::router::BudgetStatus;

verus! {

#[derive(Debug, Clone)]
pub struct PipelineIngestRequest {
    pub content: String,
    pub source: String,
    pub tags: Vec<String>,
}

#[derive(Debug, Clone)]
pub struct PipelineIngestResponse {
    pub note_id: String,
    pub wiki_entry_id: String,
    pub tier_used: String,
    pub provider_used: String,
    pub status: String,
}

#[derive(Debug, Clone)]
pub struct PipelineDiaryWriteResponse {
    pub note_id: String,
    pub status: String,
}

#[derive(Debug, Clone)]
pub struct PipelineStatusResponse {
    pub id: String,
    pub status: String,
    pub tier_done: String,
}

#[derive(Debug, Clone)]
pub struct PipelineCronResult {
    pub entries_processed: u32,
    pub synthesis_count: u32,
    pub errors: Vec<String>,
}

/// `resp` carries two separately drawn ids: `note` as its note id and
/// `wiki` as its wiki-entry id.
pub open spec fn carries_drawn_ids(resp: PipelineIngestResponse, note: FreshId, wiki: FreshId) -> bool {
    &&& separate_draws(note, wiki)
    &&& resp.note_id@ == note.spec_text()
    &&& resp.wiki_entry_id@ == wiki.spec_text()
}

/// Ingest a thought from the front end: the pipeline's answer, with its
/// note id and its separately drawn wiki-entry id passed on unchanged.
pub fn pipeline_ingest(request: PipelineIngestRequest) -> (r: Result<
    PipelineIngestResponse,
    String,
>)
    ensures
        r matches Ok(resp) && {
            &&& is_v4_uuid_text(resp.note_id@)
            &&& is_v4_uuid_text(resp.wiki_entry_id@)
            &&& resp.tier_used@ == "t3"@
            &&& resp.provider_used@ == "minimax"@
            &&& resp.status@ == "synthesized"@
        },
        r matches Ok(resp) && exists|note: FreshId, wiki: FreshId| #[trigger]
            carries_drawn_ids(resp, note, wiki),
{
    let req = IngestRequest { content: request.content, source: request.source, tags: request.tags };
    match core_ingest(req) {
        Ok(result) => {
            let ghost core = result;
            let resp = PipelineIngestResponse {
                note_id: result.note_id,
                wiki_entry_id: result.wiki_entry_id,
                tier_used: result.tier_used,
                provider_used: result.provider_used,
                status: result.status,
            };
            proof {
                let (n, w) = choose|n: FreshId, w: FreshId| #[trigger] has_drawn_ids(core, n, w);
                assert(carries_drawn_ids(resp, n, w));
            }
            Ok(resp)
        },
        Err(e) => Err(e.message),
    }
}

/// The front end's ingest answer names two separate draws: its note id and
/// its wiki-entry id are the texts of two different draws of one series.
pub proof fn lemma_front_end_ids_separately_drawn(
    resp: PipelineIngestResponse,
    note: FreshId,
    wiki: FreshId,
)
    requires
        carries_drawn_ids(resp, note, wiki),
    ensures
        note != wiki,
        resp.note_id@ == note.spec_text(),
        resp.wiki_entry_id@ == wiki.spec_text(),
{
}

/// Write to the daily diary from the front end.
pub fn pipeline_diary_write(content: String, date: String) -> (r: Result<
    PipelineDiaryWriteResponse,
    String,
>)
    ensures
        r matches Ok(resp) && is_v4_uuid_text(resp.note_id@) && resp.status@ == "saved"@,
        r matches Ok(resp) && exists|id: FreshId| #[trigger] id.spec_text() == resp.note_id@,
{
    let req = DiaryWriteRequest { content, date };
    match core_diary_write(req) {
        Ok(result) => {
            let resp = PipelineDiaryWriteResponse { note_id: result.note_id, status: result.status };
            assert(exists|id: FreshId| #[trigger] id.spec_text() == resp.note_id@);
            Ok(resp)
        },
        Err(e) => Err(e.message),
    }
}

/// The budget for the dashboard.
pub fn pipeline_budget_status(budget: &BudgetState) -> (r: Result<BudgetStatus, String>)
    ensures
        r matches Ok(s) && s == budget_status_of(*budget),
{
    match core_budget_status(budget) {
        Ok(s) => Ok(s),
        Err(e) => Err(e.message),
    }
}

/// The status of the entries with the given ids, in order.
pub fn pipeline_status(ids: Vec<String>) -> (r: Result<Vec<PipelineStatusResponse>, String>)
    ensures
        r matches Ok(v) && v@.len() == ids@.len() && forall|i: int|
            0 <= i < ids@.len() ==> {
                &&& (#[trigger] v@[i]).id@ == ids@[i]@
                &&& v@[i].status@ == "processing"@
                &&& v@[i].tier_done@ == "t3"@
            },
{
    let results = match core_status(ids) {
        Ok(v) => v,
        Err(e) => {
            return Err(e.message);
        },
    };
    let mut out: Vec<PipelineStatusResponse> = Vec::new();
    let mut i: usize = 0;
    while i < results.len()
        invariant
            i <= results@.len(),
            out@.len() == i,
            forall|k: int|
                0 <= k < i ==> {
                    &&& (#[trigger] out@[k]).id@ == results@[k].id@
                    &&& out@[k].status@ == results@[k].status@
                    &&& out@[k].tier_done@ == results@[k].tier_done@
                },
        decreases results@.len() - i,
    {
        let r = &results[i];
        out.push(
            PipelineStatusResponse {
                id: r.id.clone(),
                status: r.status.clone(),
                tier_done: r.tier_done.clone(),
            },
        );
        i = i + 1;
    }
    Ok(out)
}

/// Start a synthesis cycle from the front end.
pub fn pipeline_trigger_cron(budget: &mut BudgetState) -> (r: Result<PipelineCronResult, String>)
    ensures
        *final(budget) == BudgetState::fresh(),
        r matches Ok(c) && c.entries_processed == 0 && c.synthesis_count == 0 && c.errors@.len()
            == 0,
{
    match core_trigger_cron(budget) {
        Ok(c) => Ok(
            PipelineCronResult {
                entries_processed: c.entries_processed,
                synthesis_count: c.synthesis_count,
                errors: c.errors,
            },
        ),
        Err(e) => Err(e.message),
    }
}

} // verus!
