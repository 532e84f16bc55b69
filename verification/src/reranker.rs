//! The cross-encoder reranking façade.

use vstd::prelude::*;

use crate::backend::{describe_backend_error, load_reranker_backend};
use crate::errors::FacadeError;
use fastembed::TextRerank;

verus! {

/// One scored document exactly as the reranking backend hands it back: the
/// document text (requested alongside the scores), the relevance score as the
/// raw IEEE-754 bit pattern of the backend's `f32`, and the document's
/// position in the input batch.
#[derive(Debug, Clone)]
pub struct BackendRanking {
    pub document: Option<String>,
    pub score_bits: u32,
    pub index: usize,
}

/// One reranked document as the façade returns it: the document text, the
/// relevance score as the raw IEEE-754 bit pattern of the backend's `f32`,
/// and the document's position in the original input batch.
#[derive(Debug, Clone)]
pub struct RankedDocument {
    pub document: String,
    pub score_bits: u32,
    pub index: usize,
}

/// The integer key by which `f32::total_cmp` orders IEEE-754 bit patterns:
/// a pattern with the sign bit clear keeps its value, one with the sign bit
/// set is reflected below zero, so that more relevant scores get larger keys.
pub open spec fn score_key(bits: u32) -> int {
    if bits < 0x8000_0000 {
        bits as int
    } else {
        -1 - (bits - 0x8000_0000)
    }
}

/// Whether some entry of `out` carries the original-batch index `k`.
pub open spec fn has_backend_index(out: Seq<BackendRanking>, k: int) -> bool {
    exists|i: int| 0 <= i < out.len() && (#[trigger] out[i]).index as int == k
}

/// Whether some entry of `out` carries the original-batch index `k`.
pub open spec fn has_rank_index(out: Seq<RankedDocument>, k: int) -> bool {
    exists|i: int| 0 <= i < out.len() && (#[trigger] out[i]).index as int == k
}

/// What the reranking backend guarantees of a batch it returns: every entry
/// points into the input batch and carries that document's text; the indices
/// are the positions 0 .. `out.len()`, each exactly once; and the entries are
/// sorted by score, descending in the backend's total order.
pub open spec fn backend_ranking_sound(docs: Seq<String>, out: Seq<BackendRanking>) -> bool {
    &&& forall|i: int| 0 <= i < out.len() ==> (#[trigger] out[i]).index < docs.len()
    &&& forall|i: int| 0 <= i < out.len() ==> (#[trigger] out[i]).index < out.len()
    &&& forall|i: int|
        0 <= i < out.len() ==> {
            &&& (#[trigger] out[i]).document is Some
            &&& out[i].document->0@ == docs[out[i].index as int]@
        }
    &&& forall|i: int, j: int|
        0 <= i < out.len() && 0 <= j < out.len() && i != j ==> (#[trigger] out[i]).index != (
        #[trigger] out[j]).index
    &&& forall|k: int| 0 <= k < out.len() ==> #[trigger] has_backend_index(out, k)
    &&& forall|i: int, j: int|
        0 <= i <= j < out.len() ==> score_key((#[trigger] out[j]).score_bits) <= score_key((
        #[trigger] out[i]).score_bits)
}

/// Relies on `fastembed::TextRerank::rerank` with `return_documents = true`
/// (`&mut self`, one call for the whole batch): it scores every document
/// against the query, tags each score with the document's position in the
/// batch (each position once), copies that document's text into the entry,
/// and sorts the entries by `f32::total_cmp` on the score, descending —
/// `score_key` mirrors that order on the bit patterns carried over.
#[verifier::external_body]
fn rerank_batch(backend: &mut TextRerank, query: &String, documents: &Vec<String>) -> (r: Result<
    Vec<BackendRanking>,
    fastembed::Error,
>)
    ensures
        r matches Ok(out) ==> backend_ranking_sound(documents@, out@),
{
    backend.rerank(query.clone(), documents.as_slice(), true, None).map(|results| {
        results.into_iter().map(|entry| BackendRanking {
            document: entry.document,
            score_bits: entry.score.to_bits(),
            index: entry.index,
        }).collect()
    })
}

/// The text a returned entry carries: the backend's document text when it
/// handed one back, and the empty string where it did not.
pub open spec fn document_text_spec(d: Option<String>) -> Seq<char> {
    match d {
        Some(s) => s@,
        None => Seq::empty(),
    }
}

/// Whether `out` is `raw` carried over entry by entry: same length, and each
/// entry keeps its index and score while its document text is unwrapped (an
/// absent text becomes the empty string).
pub open spec fn rankings_match(raw: Seq<BackendRanking>, out: Seq<RankedDocument>) -> bool {
    &&& out.len() == raw.len()
    &&& forall|i: int|
        0 <= i < raw.len() ==> {
            &&& (#[trigger] out[i]).index == raw[i].index
            &&& out[i].score_bits == raw[i].score_bits
            &&& out[i].document@ == document_text_spec(raw[i].document)
        }
}

/// Accepts a backend rerank output only when it holds exactly one entry per
/// input document, and carries the entries over unchanged; a batch of any
/// other size is surfaced as an inference failure, so that no document is
/// dropped or duplicated silently.
pub fn collect_rankings(expected: usize, raw: Vec<BackendRanking>) -> (r: Result<
    Vec<RankedDocument>,
    FacadeError,
>)
    ensures
        raw@.len() != expected ==> (r matches Err(e) && e is Inference),
        raw@.len() == expected ==> (r matches Ok(out) && rankings_match(raw@, out@)),
{
    if raw.len() != expected {
        return Err(
            FacadeError::Inference(
                String::from_str("Reranking failed: backend returned a different number of results than documents"),
            ),
        );
    }
    let mut out: Vec<RankedDocument> = Vec::new();
    let mut i: usize = 0;
    while i < raw.len()
        invariant
            i <= raw@.len(),
            out@.len() == i as int,
            forall|j: int|
                0 <= j < i as int ==> {
                    &&& (#[trigger] out@[j]).index == raw@[j].index
                    &&& out@[j].score_bits == raw@[j].score_bits
                    &&& out@[j].document@ == document_text_spec(raw@[j].document)
                },
        decreases raw@.len() - i,
    {
        let entry = &raw[i];
        let document: String = match &entry.document {
            Some(s) => String::from_str(s.as_str()),
            None => String::from_str(""),
        };
        proof {
            reveal_strlit("");
            assert(""@ =~= Seq::<char>::empty());
        }
        out.push(
            RankedDocument { document, score_bits: entry.score_bits, index: entry.index },
        );
        i = i + 1;
    }
    Ok(out)
}

/// What the façade guarantees of a successful rerank: one entry per input
/// document; every entry points into the input batch, under its original
/// index, and carries that document's text; each original position appears
/// exactly once; and the entries come sorted by score, descending in the
/// backend's total order.
pub open spec fn ranking_sound(docs: Seq<String>, out: Seq<RankedDocument>) -> bool {
    &&& out.len() == docs.len()
    &&& forall|i: int| 0 <= i < out.len() ==> (#[trigger] out[i]).index < docs.len()
    &&& forall|i: int|
        0 <= i < out.len() ==> (#[trigger] out[i]).document@ == docs[out[i].index as int]@
    &&& forall|i: int, j: int|
        0 <= i < out.len() && 0 <= j < out.len() && i != j ==> (#[trigger] out[i]).index != (
        #[trigger] out[j]).index
    &&& forall|k: int| 0 <= k < out.len() ==> #[trigger] has_rank_index(out, k)
    &&& forall|i: int, j: int|
        0 <= i <= j < out.len() ==> score_key((#[trigger] out[j]).score_bits) <= score_key((
        #[trigger] out[i]).score_bits)
}

/// Law: a sound backend batch of the right size, carried over entry by entry,
/// is a sound façade result — the count, the index permutation, the document
/// texts and the descending score order all survive the carry-over.
pub proof fn lemma_rankings_carry(
    docs: Seq<String>,
    raw: Seq<BackendRanking>,
    out: Seq<RankedDocument>,
)
    requires
        backend_ranking_sound(docs, raw),
        rankings_match(raw, out),
        raw.len() == docs.len(),
    ensures
        ranking_sound(docs, out),
{
    assert forall|i: int|
        0 <= i < out.len() implies (#[trigger] out[i]).document@ == docs[out[i].index as int]@ by {
        assert(raw[i].document is Some);
        assert(out[i].document@ == document_text_spec(raw[i].document));
    }
    assert forall|k: int| 0 <= k < out.len() implies #[trigger] has_rank_index(out, k) by {
        assert(has_backend_index(raw, k));
        let i = choose|i: int| 0 <= i < raw.len() && (#[trigger] raw[i]).index as int == k;
        assert(out[i].index as int == k);
    }
}

/// A reranker that owns one loaded cross-encoder backend.
///
/// The backend is constructed exactly once; a constructor failure leaves no
/// partially initialized value behind. Rerank calls take `&mut self` because
/// the backend keeps internal scratch state; callers sharing one reranker
/// across threads must serialize access themselves.
pub struct TextReranker {
    backend: TextRerank,
}

impl TextReranker {
    /// Creates a reranker with the multilingual BGE-Reranker-V2-M3
    /// cross-encoder (fetched on first use).
    pub fn new() -> (r: Result<TextReranker, FacadeError>)
        ensures
            r matches Err(e) ==> e is ModelLoad,
    {
        match load_reranker_backend(true) {
            Ok(backend) => Ok(TextReranker { backend }),
            Err(e) => Err(
                FacadeError::ModelLoad(
                    describe_backend_error("Failed to load reranker model", &e),
                ),
            ),
        }
    }

    /// Scores the documents against the query and returns them in descending
    /// relevance order.
    ///
    /// An empty document batch returns an empty result at once, without
    /// touching the backend. Otherwise the backend is invoked once with the
    /// whole batch; a backend failure, or a batch whose entry count differs
    /// from the document count, is surfaced as an inference error with no
    /// partial result. Equal scores keep the backend's own tie-break order;
    /// the façade imposes no sort of its own.
    pub fn rerank(&mut self, query: String, documents: Vec<String>) -> (r: Result<
        Vec<RankedDocument>,
        FacadeError,
    >)
        ensures
            r matches Ok(out) ==> ranking_sound(documents@, out@),
            documents@.len() == 0 ==> r is Ok,
            r matches Err(e) ==> e is Inference,
    {
        if documents.len() == 0 {
            return Ok(Vec::new());
        }
        match rerank_batch(&mut self.backend, &query, &documents) {
            Ok(raw) => {
                let ghost raw_seq = raw@;
                match collect_rankings(documents.len(), raw) {
                    Ok(out) => {
                        proof {
                            lemma_rankings_carry(documents@, raw_seq, out@);
                        }
                        Ok(out)
                    },
                    Err(e) => Err(e),
                }
            },
            Err(e) => Err(
                FacadeError::Inference(describe_backend_error("Reranking failed", &e)),
            ),
        }
    }
}

} // verus!
