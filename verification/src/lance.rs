//! The local vector store: its error type and the table it keeps. Opening
//! the store, writing and querying it are the application's.

use vstd::prelude::*;

verus! {

#[derive(Debug, Clone)]
pub enum LanceError {
    InitFailed(String),
    NotInitialized(String),
    InsertFailed(String),
    QueryFailed(String),
}

/// The text of a store error, as it is shown to the user.
pub open spec fn lance_error_text(e: LanceError) -> Seq<char> {
    match e {
        LanceError::InitFailed(m) => "LanceDB init failed: "@ + m@,
        LanceError::NotInitialized(m) => "LanceDB not initialized: "@ + m@,
        LanceError::InsertFailed(m) => "LanceDB insert failed: "@ + m@,
        LanceError::QueryFailed(m) => "LanceDB query failed: "@ + m@,
    }
}

impl LanceError {
    /// The text of this error, as it is shown to the user.
    pub fn message(&self) -> (r: String)
        ensures
            r@ == lance_error_text(*self),
    {
        let (head, m) = match self {
            LanceError::InitFailed(m) => ("LanceDB init failed: ", m),
            LanceError::NotInitialized(m) => ("LanceDB not initialized: ", m),
            LanceError::InsertFailed(m) => ("LanceDB insert failed: ", m),
            LanceError::QueryFailed(m) => ("LanceDB query failed: ", m),
        };
        let mut s = String::from_str(head);
        s.append(m.as_str());
        s
    }
}

/// The table of embeddings.
pub open spec fn table_name() -> Seq<char> {
    "embeddings"@
}

/// The store already has the embeddings table among `names`; where it does
/// not, the table is created.
pub fn has_embeddings_table(names: &Vec<String>) -> (r: bool)
    ensures
        r == exists|i: int| 0 <= i < names@.len() && #[trigger] names@[i]@ == table_name(),
{
    let wanted = String::from_str("embeddings");
    let mut i: usize = 0;
    while i < names.len()
        invariant
            i <= names@.len(),
            wanted@ == table_name(),
            forall|k: int| 0 <= k < i ==> #[trigger] names@[k]@ != table_name(),
        decreases names@.len() - i,
    {
        if names[i] == wanted {
            return true;
        }
        i = i + 1;
    }
    false
}

} // verus!
