//! Notes of the vault: ingesting a file and deleting a note.

use vstd::prelude::*;
use crate::clock::{ClockReading, FreshId, fresh_id, is_v4_uuid_text, read_clock};

verus! {

#[derive(Debug, Clone)]
pub struct VaultIngestResponse {
    pub note_id: String,
    pub status: String,
    pub created_at: i64,
}

/// The answer to ingesting a note with id `note_id` at time `now`: the
/// note is prepared, the first phase of its commit.
pub fn vault_ingest_response(note_id: String, now: i64) -> (r: VaultIngestResponse)
    ensures
        r.note_id == note_id,
        r.status@ == "prepared"@,
        r.created_at == now,
{
    VaultIngestResponse { note_id, status: String::from_str("prepared"), created_at: now }
}

/// `v` answers the ingestion of a note drawn as `id` at the clock reading
/// `t`: the note has that id, is prepared, and is dated at the reading.
pub open spec fn is_ingested_note(v: VaultIngestResponse, id: FreshId, t: ClockReading) -> bool {
    &&& v.note_id@ == id.spec_text()
    &&& v.status@ == "prepared"@
    &&& v.created_at == t.spec_millis()
}

/// Ingest a file into the vault: it gets a freshly drawn note id, is
/// prepared, and is dated at the time of the call, read from the clock.
pub fn vault_ingest_file(path: String, title: String, tags: Vec<String>) -> (r: Result<
    VaultIngestResponse,
    String,
>)
    ensures
        r matches Ok(v) && is_v4_uuid_text(v.note_id@) && v.status@ == "prepared"@
            && v.created_at >= 0,
        r matches Ok(v) && exists|id: FreshId, t: ClockReading| #[trigger]
            is_ingested_note(v, id, t) && t.spec_millis() >= 0,
{
    let id = fresh_id();
    let now = read_clock();
    let ghost (gid, gt) = (id, now);
    let v = vault_ingest_response(id.into_text(), now.millis());
    assert(is_ingested_note(v, gid, gt));
    Ok(v)
}

/// An ingested note is dated at the clock reading of its ingestion: the
/// dates of two ingested notes lie as far apart as the readings they were
/// ingested at, and each carries the text of the id drawn for it.
pub proof fn lemma_ingested_note_dated_at_reading(
    v: VaultIngestResponse,
    id: FreshId,
    t: ClockReading,
    w: VaultIngestResponse,
    id2: FreshId,
    t2: ClockReading,
)
    requires
        is_ingested_note(v, id, t),
        is_ingested_note(w, id2, t2),
    ensures
        v.created_at - w.created_at == t.spec_millis() - t2.spec_millis(),
        v.note_id@ == id.spec_text(),
        w.note_id@ == id2.spec_text(),
{
}

/// Delete a note; deletion always succeeds.
pub fn vault_delete_note(note_id: String) -> (r: Result<bool, String>)
    ensures
        r == Ok::<bool, String>(true),
{
    Ok(true)
}

} // verus!
