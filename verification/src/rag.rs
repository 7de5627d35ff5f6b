use vstd::prelude::*;

verus! {

/// One retrieved item of the in-memory vector store. The similarity score
/// is in thousandths (1000 stands for a perfect match).
#[derive(Debug)]
pub struct VectorItem {
    pub content: String,
    pub score_milli: u32,
}

/// Minimal in-memory vector store used for retrieval queries. The pipeline
/// never reads storage back, so the store holds nothing yet.
pub struct VectorStore;

impl VectorStore {
    pub fn new() -> (r: VectorStore)
        ensures
            r == (VectorStore {  }),
    {
        VectorStore {  }
    }

    /// Perform a similarity search. The empty store returns no items.
    pub fn query(&self, _query: &str) -> (r: Vec<VectorItem>)
        ensures
            r@.len() == 0,
    {
        Vec::new()
    }
}

} // verus!
