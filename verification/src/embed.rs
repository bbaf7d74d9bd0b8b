//! Embedding service. The vectors are floats and are made by the
//! application; the integer sequence they are derived from is made here.

use vstd::prelude::*;
use std::hash::{Hash, Hasher};

verus! {

/// Embedding dimension of all-MiniLM-L6-v2, the target model.
pub const EMBEDDING_DIM: usize = 384;

#[derive(Debug, Clone)]
pub enum EmbedError {
    InitFailed(String),
    NotInitialized(String),
    EmbeddingFailed(String),
}

/// The text of an embedding error, as it is shown to the user.
pub open spec fn embed_error_text(e: EmbedError) -> Seq<char> {
    match e {
        EmbedError::InitFailed(m) => "Embedder init failed: "@ + m@,
        EmbedError::NotInitialized(m) => "Embedder not initialized: "@ + m@,
        EmbedError::EmbeddingFailed(m) => "Embedding generation failed: "@ + m@,
    }
}

impl EmbedError {
    /// The text of this error, as it is shown to the user.
    pub fn message(&self) -> (r: String)
        ensures
            r@ == embed_error_text(*self),
    {
        let (head, m) = match self {
            EmbedError::InitFailed(m) => ("Embedder init failed: ", m),
            EmbedError::NotInitialized(m) => ("Embedder not initialized: ", m),
            EmbedError::EmbeddingFailed(m) => ("Embedding generation failed: ", m),
        };
        let mut s = String::from_str(head);
        s.append(m.as_str());
        s
    }
}

/// Initialize the embedder. The stub embedder needs nothing, so this
/// always succeeds.
pub fn init_embedder() -> (r: Result<(), EmbedError>)
    ensures
        r is Ok,
{
    Ok(())
}

/// The embedder is ready; the stub embedder always is.
pub fn is_ready() -> (r: bool)
    ensures
        r,
{
    true
}

/// One step of the xorshift64 generator (shifts 13, 7, 17).
pub open spec fn xorshift_step(x: u64) -> u64 {
    let a = x ^ ((x << 13u64) as u64);
    let b = a ^ (a >> 7u64);
    b ^ ((b << 17u64) as u64)
}

/// The state of the generator after `n` steps from `seed`.
pub open spec fn xorshift_state(seed: u64, n: nat) -> u64
    decreases n,
{
    if n == 0 {
        seed
    } else {
        xorshift_step(xorshift_state(seed, (n - 1) as nat))
    }
}

fn xorshift_next(x: u64) -> (r: u64)
    ensures
        r == xorshift_step(x),
{
    let mut s = x;
    s ^= s << 13;
    s ^= s >> 7;
    s ^= s << 17;
    s
}

/// The generator states the stub vector's components are made from: the
/// states after 1, 2, …, `EMBEDDING_DIM` steps from `seed`.
pub fn stub_states(seed: u64) -> (r: Vec<u64>)
    ensures
        r@.len() == EMBEDDING_DIM,
        forall|i: int| 0 <= i < EMBEDDING_DIM ==> r@[i] == xorshift_state(seed, (i + 1) as nat),
{
    let mut v: Vec<u64> = Vec::new();
    let mut state = seed;
    let mut i: usize = 0;
    while i < EMBEDDING_DIM
        invariant
            i <= EMBEDDING_DIM,
            v@.len() == i,
            state == xorshift_state(seed, i as nat),
            forall|k: int| 0 <= k < i ==> v@[k] == xorshift_state(seed, (k + 1) as nat),
        decreases EMBEDDING_DIM - i,
    {
        state = xorshift_next(state);
        v.push(state);
        i = i + 1;
    }
    v
}

/// What `DefaultHasher` makes of a text: `Hash` of the `str` written into
/// a `DefaultHasher::new()`, then `finish`.
pub uninterp spec fn text_hash(text: Seq<char>) -> u64;

/// `std::collections::hash_map::DefaultHasher`: hash `text` as `Hash` for
/// `str` does into a fresh hasher and finish it. `DefaultHasher::new` is
/// not seeded per process; its algorithm is fixed for a given build of std
/// (the documentation says it may change between releases), so the result
/// is named as a function of the text.
#[verifier::external_body]
fn hash_text(text: &str) -> (r: u64)
    ensures
        r == text_hash(text@),
{
    let mut hasher = std::collections::hash_map::DefaultHasher::new();
    text.hash(&mut hasher);
    hasher.finish()
}

/// The generator states of the stub embedding of `text`: those of
/// `stub_states` from the text's hash.
pub fn text_stub_states(text: &str) -> (r: Vec<u64>)
    ensures
        r@.len() == EMBEDDING_DIM,
        forall|i: int|
            0 <= i < EMBEDDING_DIM ==> r@[i] == xorshift_state(text_hash(text@), (i + 1) as nat),
{
    let seed = hash_text(text);
    stub_states(seed)
}

} // verus!
