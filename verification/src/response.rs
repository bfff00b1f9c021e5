use vstd::prelude::*;

verus! {

/// Spec-level model of one response chunk: its text and whether it is the
/// terminal chunk of a call.
pub ghost struct ChunkView {
    pub content: Seq<char>,
    pub is_complete: bool,
}

/// One unit of incremental or final text delivered to the consumer of a
/// backend call. `content` is cumulative: each chunk carries the whole text
/// received so far, and the terminal chunk carries the full text (or a
/// human-readable error message).
#[derive(Clone, Debug)]
pub struct LLMResponse {
    pub content: String,
    pub is_complete: bool,
}

impl View for LLMResponse {
    type V = ChunkView;

    open spec fn view(&self) -> ChunkView {
        ChunkView { content: self.content@, is_complete: self.is_complete }
    }
}

/// How many terminal chunks a delivered sequence holds.
pub open spec fn count_finals(chunks: Seq<ChunkView>) -> int {
    chunks.filter(|c: ChunkView| c.is_complete).len() as int
}

/// Counting terminal chunks distributes over concatenation.
pub proof fn lemma_count_finals_add(a: Seq<ChunkView>, b: Seq<ChunkView>)
    ensures
        count_finals(a + b) == count_finals(a) + count_finals(b),
{
    Seq::<ChunkView>::filter_distributes_over_add(a, b, |c: ChunkView| c.is_complete);
}

/// An empty delivery holds no terminal chunk.
pub proof fn lemma_count_finals_empty()
    ensures
        count_finals(Seq::<ChunkView>::empty()) == 0,
{
    reveal_with_fuel(Seq::filter, 1);
}

/// A single chunk counts as terminal exactly when it is marked complete.
pub proof fn lemma_count_finals_one(c: ChunkView)
    ensures
        count_finals(seq![c]) == if c.is_complete { 1int } else { 0int },
{
    reveal_with_fuel(Seq::filter, 2);
    assert(seq![c].drop_last() =~= Seq::<ChunkView>::empty());
}

} // verus!
