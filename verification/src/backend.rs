//! The trusted boundary to the fastembed inference backend.
//!
//! Everything here either declares an outside type so that it can stand in
//! signatures, or wraps one outside call whose contract Verus believes. The
//! backends themselves (tokenization, tensor math, artifact fetching) are
//! opaque to this crate; the façades in [`crate::embedder`] and
//! [`crate::reranker`] build their verified contracts on what is stated here.

use vstd::prelude::*;

use fastembed::{EmbeddingModel, InitOptions, RerankInitOptions, RerankerModel, TextEmbedding,
    TextRerank};

verus! {

/// Declares `fastembed::TextEmbedding`, the loaded embedding backend, as an
/// opaque type.
#[verifier::external_type_specification]
#[verifier::external_body]
pub struct ExTextEmbedding(TextEmbedding);

/// Declares `fastembed::TextRerank`, the loaded cross-encoder backend, as an
/// opaque type.
#[verifier::external_type_specification]
#[verifier::external_body]
pub struct ExTextRerank(TextRerank);

/// Declares `fastembed::EmbeddingModel`, the catalog of predefined embedding
/// models, as an opaque type.
#[verifier::external_type_specification]
#[verifier::external_body]
pub struct ExEmbeddingModel(EmbeddingModel);

/// Declares `fastembed::Error`, the backend's failure type, as an opaque
/// type; the façades only ever render it to text.
#[verifier::external_type_specification]
#[verifier::external_body]
pub struct ExBackendError(fastembed::Error);

/// Whether a model identifier resolves to an entry of the backend's fixed
/// catalog of predefined embedding models. The catalog is a constant of the
/// backend crate, so this depends on the identifier alone.
pub uninterp spec fn model_name_known(name: Seq<char>) -> bool;

/// Relies on `<fastembed::EmbeddingModel as core::str::FromStr>::from_str`: it
/// resolves an identifier against the fixed catalog of predefined models,
/// case-insensitively, and returns `Err` with a diagnostic for any identifier
/// not in the catalog. Which identifiers resolve is named `model_name_known`.
#[verifier::external_body]
pub(crate) fn parse_model_name(name: &str) -> (r: Result<EmbeddingModel, String>)
    ensures
        r is Ok <==> model_name_known(name@),
{
    name.parse::<EmbeddingModel>()
}

/// Relies on `fastembed::EmbeddingModel::EmbeddingGemma300M`: the catalog
/// entry of the full-precision EmbeddingGemma model.
#[verifier::external_body]
pub(crate) fn gemma_full_model() -> EmbeddingModel {
    EmbeddingModel::EmbeddingGemma300M
}

/// Relies on `fastembed::EmbeddingModel::EmbeddingGemma300MQ`: the catalog
/// entry of the quantized (Q4F16) EmbeddingGemma model.
#[verifier::external_body]
pub(crate) fn gemma_quantized_model() -> EmbeddingModel {
    EmbeddingModel::EmbeddingGemma300MQ
}

/// Relies on `fastembed::TextEmbedding::try_new`: it fetches (on first use)
/// and loads the given predefined model's artifacts; `Ok` holds a ready
/// backend, `Err` the load failure. Nothing further is assumed of either
/// outcome.
#[verifier::external_body]
pub(crate) fn load_embedding_backend(model: EmbeddingModel, show_progress: bool) -> Result<
    TextEmbedding,
    fastembed::Error,
> {
    TextEmbedding::try_new(InitOptions::new(model).with_show_download_progress(show_progress))
}

/// Relies on `fastembed::TextRerank::try_new` with
/// `fastembed::RerankerModel::BGERerankerV2M3`: it fetches (on first use) and
/// loads the BGE-Reranker-V2-M3 cross-encoder; `Ok` holds a ready backend,
/// `Err` the load failure.
#[verifier::external_body]
pub(crate) fn load_reranker_backend(show_progress: bool) -> Result<
    TextRerank,
    fastembed::Error,
> {
    TextRerank::try_new(
        RerankInitOptions::new(RerankerModel::BGERerankerV2M3).with_show_download_progress(
            show_progress,
        ),
    )
}

/// Relies on the `std::fmt::Display` rendering of `fastembed::Error` (written
/// by `thiserror`): it turns the failure into its diagnostic text, here
/// prefixed with the operation that failed.
#[verifier::external_body]
pub(crate) fn describe_backend_error(context: &str, e: &fastembed::Error) -> String {
    format!("{}: {}", context, e)
}

} // verus!
