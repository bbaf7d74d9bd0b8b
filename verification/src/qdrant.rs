//! Vector-database collections and the client of the vector store. The
//! client is a stub: it connects nowhere and its operations succeed.

use vstd::prelude::*;

verus! {

/// Vector size of the collections (Qwen3-4B-4bit embeddings).
pub const VECTOR_SIZE: u64 = 2560;
/// Shards per collection.
pub const SHARD_NUMBER: u32 = 3;

/// The payload fields that get an index.
pub open spec fn indexed_fields() -> Seq<Seq<char>> {
    seq![
        "entity_type"@,
        "tx_time_start"@,
        "valid_time_start"@,
        "created_by"@,
        "record_type"@,
        "sync_status"@,
    ]
}

pub fn indexed_payload_fields() -> (r: Vec<String>)
    ensures
        r@.map_values(|s: String| s@) == indexed_fields(),
{
    let mut v: Vec<String> = Vec::new();
    v.push(String::from_str("entity_type"));
    v.push(String::from_str("tx_time_start"));
    v.push(String::from_str("valid_time_start"));
    v.push(String::from_str("created_by"));
    v.push(String::from_str("record_type"));
    v.push(String::from_str("sync_status"));
    assert(v@.map_values(|s: String| s@) =~= indexed_fields());
    v
}

/// Client of the vector store.
#[derive(Clone)]
pub struct QdrantVectorClient {
    url: String,
}

impl QdrantVectorClient {
    pub closed spec fn spec_url(&self) -> Seq<char> {
        self.url@
    }

    /// A client for the store at `url`.
    pub fn new(url: &str) -> (r: Result<Self, String>)
        ensures
            r matches Ok(c) && c.spec_url() == url@,
    {
        Ok(QdrantVectorClient { url: String::from_str(url) })
    }

    /// Create the collections that are missing.
    pub fn init_collections(&self) -> (r: Result<(), String>)
        ensures
            r is Ok,
    {
        Ok(())
    }

    pub fn health_check(&self) -> (r: bool)
        ensures
            r,
    {
        true
    }

    pub fn url(&self) -> (r: &str)
        ensures
            r@ == self.spec_url(),
    {
        self.url.as_str()
    }
}

} // verus!
