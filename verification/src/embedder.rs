//! The text-embedding façade and the quantization selector.

use vstd::prelude::*;

use crate::backend::{describe_backend_error, gemma_full_model, gemma_quantized_model,
    load_embedding_backend, model_name_known, parse_model_name};
use crate::errors::FacadeError;
use fastembed::{EmbeddingModel, TextEmbedding};

verus! {

/// A precision/size tradeoff for the EmbeddingGemma model family.
///
/// The set is closed: each variant maps to exactly one pair of artifact
/// filenames (weights file, auxiliary tensor data file) through
/// [`QuantizationType::model_filename`] and
/// [`QuantizationType::data_filename`]. Adding a precision tier means adding
/// a variant and extending those two mappings, nothing else.
#[derive(Debug, Clone, Copy, PartialEq, Eq, Structural)]
pub enum QuantizationType {
    /// Full FP32 model (~1.2GB).
    Full,
    /// FP16 model (~617MB).
    FP16,
    /// Q4 quantized (~197MB).
    Q4,
    /// Q4 with FP16 embeddings (~175MB), the recommended default.
    Q4F16,
    /// INT8 quantized (~309MB).
    Quantized,
}

/// The ONNX weights filename for a quantization choice.
pub open spec fn model_filename_spec(q: QuantizationType) -> Seq<char> {
    match q {
        QuantizationType::Full => "model.onnx"@,
        QuantizationType::FP16 => "model_fp16.onnx"@,
        QuantizationType::Q4 => "model_q4.onnx"@,
        QuantizationType::Q4F16 => "model_q4f16.onnx"@,
        QuantizationType::Quantized => "model_quantized.onnx"@,
    }
}

/// The ONNX auxiliary data filename for a quantization choice.
pub open spec fn data_filename_spec(q: QuantizationType) -> Seq<char> {
    match q {
        QuantizationType::Full => "model.onnx_data"@,
        QuantizationType::FP16 => "model_fp16.onnx_data"@,
        QuantizationType::Q4 => "model_q4.onnx_data"@,
        QuantizationType::Q4F16 => "model_q4f16.onnx_data"@,
        QuantizationType::Quantized => "model_quantized.onnx_data"@,
    }
}

impl QuantizationType {
    /// Returns the ONNX model filename for this quantization type.
    pub fn model_filename(&self) -> (r: &'static str)
        ensures
            r@ == model_filename_spec(*self),
    {
        match self {
            QuantizationType::Full => "model.onnx",
            QuantizationType::FP16 => "model_fp16.onnx",
            QuantizationType::Q4 => "model_q4.onnx",
            QuantizationType::Q4F16 => "model_q4f16.onnx",
            QuantizationType::Quantized => "model_quantized.onnx",
        }
    }

    /// Returns the ONNX data filename for this quantization type.
    pub fn data_filename(&self) -> (r: &'static str)
        ensures
            r@ == data_filename_spec(*self),
    {
        match self {
            QuantizationType::Full => "model.onnx_data",
            QuantizationType::FP16 => "model_fp16.onnx_data",
            QuantizationType::Q4 => "model_q4.onnx_data",
            QuantizationType::Q4F16 => "model_q4f16.onnx_data",
            QuantizationType::Quantized => "model_quantized.onnx_data",
        }
    }
}

impl Default for QuantizationType {
    /// The default precision choice: the smallest variant with acceptable
    /// quality.
    fn default() -> (r: Self)
        ensures
            r == QuantizationType::Q4F16,
    {
        QuantizationType::Q4F16
    }
}

/// Law: every quantization variant maps to a non-empty weights filename and a
/// non-empty data filename. (Both mappings are spec functions, so the same
/// variant gives the same filenames on every call.)
pub proof fn lemma_filenames_nonempty(q: QuantizationType)
    ensures
        model_filename_spec(q).len() > 0,
        data_filename_spec(q).len() > 0,
{
    reveal_strlit("model.onnx");
    reveal_strlit("model_fp16.onnx");
    reveal_strlit("model_q4.onnx");
    reveal_strlit("model_q4f16.onnx");
    reveal_strlit("model_quantized.onnx");
    reveal_strlit("model.onnx_data");
    reveal_strlit("model_fp16.onnx_data");
    reveal_strlit("model_q4.onnx_data");
    reveal_strlit("model_q4f16.onnx_data");
    reveal_strlit("model_quantized.onnx_data");
}

/// Law: distinct quantization variants map to distinct weights filenames and
/// distinct data filenames.
pub proof fn lemma_filenames_distinct(a: QuantizationType, b: QuantizationType)
    requires
        a != b,
    ensures
        model_filename_spec(a) != model_filename_spec(b),
        data_filename_spec(a) != data_filename_spec(b),
{
    reveal_strlit("model.onnx");
    reveal_strlit("model_fp16.onnx");
    reveal_strlit("model_q4.onnx");
    reveal_strlit("model_q4f16.onnx");
    reveal_strlit("model_quantized.onnx");
    reveal_strlit("model.onnx_data");
    reveal_strlit("model_fp16.onnx_data");
    reveal_strlit("model_q4.onnx_data");
    reveal_strlit("model_q4f16.onnx_data");
    reveal_strlit("model_quantized.onnx_data");
    assert(model_filename_spec(QuantizationType::Full).len() == 10);
    assert(model_filename_spec(QuantizationType::FP16).len() == 15);
    assert(model_filename_spec(QuantizationType::Q4).len() == 13);
    assert(model_filename_spec(QuantizationType::Q4F16).len() == 16);
    assert(model_filename_spec(QuantizationType::Quantized).len() == 20);
    assert(data_filename_spec(QuantizationType::Full).len() == 15);
    assert(data_filename_spec(QuantizationType::FP16).len() == 20);
    assert(data_filename_spec(QuantizationType::Q4).len() == 18);
    assert(data_filename_spec(QuantizationType::Q4F16).len() == 21);
    assert(data_filename_spec(QuantizationType::Quantized).len() == 25);
}

/// Relies on `fastembed::TextEmbedding::embed` (`&mut self`, one call for the
/// whole batch, no internal chunking requested): each output vector's `f32`
/// components are carried over as their raw IEEE-754 bit patterns, in order.
/// Nothing is assumed of how many vectors come back or of their contents.
#[verifier::external_body]
fn embed_batch(backend: &mut TextEmbedding, texts: &Vec<String>) -> Result<
    Vec<Vec<u32>>,
    fastembed::Error,
> {
    backend.embed(texts, None).map(|vectors| {
        vectors.into_iter().map(|v| v.into_iter().map(|c| c.to_bits()).collect()).collect()
    })
}

/// Accepts a backend batch output only when it holds exactly one vector per
/// input text; anything else is surfaced as an inference failure, so that no
/// partial batch is ever returned.
pub fn check_embedding_count(expected: usize, output: Vec<Vec<u32>>) -> (r: Result<
    Vec<Vec<u32>>,
    FacadeError,
>)
    ensures
        output@.len() == expected ==> (r matches Ok(v) && v@ == output@),
        output@.len() != expected ==> (r matches Err(e) && e is Inference),
{
    if output.len() == expected {
        Ok(output)
    } else {
        Err(
            FacadeError::Inference(
                String::from_str("Embedding failed: backend returned a different number of vectors than texts"),
            ),
        )
    }
}

/// A text embedder that owns one loaded embedding backend.
///
/// The backend is constructed exactly once, by one of the constructors; a
/// constructor failure leaves no partially initialized value behind. Embedding
/// calls take `&mut self` because the backend keeps internal scratch state;
/// callers sharing one embedder across threads must serialize access
/// themselves. Vector components are returned as raw IEEE-754 bit patterns of
/// the backend's `f32` values.
pub struct TextEmbedder {
    backend: TextEmbedding,
}

impl TextEmbedder {
    /// Creates an embedder with the full-precision EmbeddingGemma model
    /// (fetched on first use, ~1.2GB). Supports 100+ languages.
    pub fn new() -> (r: Result<TextEmbedder, FacadeError>)
        ensures
            r matches Err(e) ==> e is ModelLoad,
    {
        match load_embedding_backend(gemma_full_model(), true) {
            Ok(backend) => Ok(TextEmbedder { backend }),
            Err(e) => Err(
                FacadeError::ModelLoad(describe_backend_error("Failed to load model", &e)),
            ),
        }
    }

    /// Creates an embedder with the quantized (Q4F16) EmbeddingGemma model
    /// (fetched on first use, ~175MB); the recommended path for constrained
    /// hardware.
    pub fn new_quantized_auto() -> (r: Result<TextEmbedder, FacadeError>)
        ensures
            r matches Err(e) ==> e is ModelLoad,
    {
        match load_embedding_backend(gemma_quantized_model(), true) {
            Ok(backend) => Ok(TextEmbedder { backend }),
            Err(e) => Err(
                FacadeError::ModelLoad(
                    describe_backend_error("Failed to load quantized model", &e),
                ),
            ),
        }
    }

    /// Creates an embedder with a specific predefined model from the backend's
    /// catalog.
    pub fn with_model(model_type: EmbeddingModel) -> (r: Result<TextEmbedder, FacadeError>)
        ensures
            r matches Err(e) ==> e is ModelLoad,
    {
        match load_embedding_backend(model_type, true) {
            Ok(backend) => Ok(TextEmbedder { backend }),
            Err(e) => Err(
                FacadeError::ModelLoad(describe_backend_error("Failed to load model", &e)),
            ),
        }
    }

    /// Creates an embedder from a model identifier. An identifier outside the
    /// supported catalog is rejected as a load error before any artifact is
    /// fetched; a known identifier proceeds as [`TextEmbedder::with_model`].
    pub fn with_model_name(name: &str) -> (r: Result<TextEmbedder, FacadeError>)
        ensures
            r matches Err(e) ==> e is ModelLoad,
            !model_name_known(name@) ==> r is Err,
    {
        match parse_model_name(name) {
            Ok(model) => TextEmbedder::with_model(model),
            Err(msg) => Err(FacadeError::ModelLoad(msg)),
        }
    }

    /// Returns the embedding dimension: 768 for the EmbeddingGemma family, on
    /// every call, whatever was embedded before.
    pub fn dimension(&self) -> (r: usize)
        ensures
            r == 768,
    {
        768
    }

    /// Generates one embedding vector per input text, in input order.
    ///
    /// An empty batch returns an empty result at once, without touching the
    /// backend. Otherwise the backend is invoked once with the whole batch; a
    /// backend failure, or a batch whose vector count differs from the text
    /// count, is surfaced as an inference error with no partial result.
    pub fn embed(&mut self, texts: Vec<String>) -> (r: Result<Vec<Vec<u32>>, FacadeError>)
        ensures
            r matches Ok(out) ==> out@.len() == texts@.len(),
            texts@.len() == 0 ==> r is Ok,
            r matches Err(e) ==> e is Inference,
    {
        if texts.len() == 0 {
            return Ok(Vec::new());
        }
        match embed_batch(&mut self.backend, &texts) {
            Ok(output) => check_embedding_count(texts.len(), output),
            Err(e) => Err(
                FacadeError::Inference(describe_backend_error("Embedding failed", &e)),
            ),
        }
    }

    /// Generates the embedding of a single text: the one vector of the
    /// one-element batch `embed` produces for it, unchanged.
    pub fn embed_one(&mut self, text: &str) -> (r: Result<Vec<u32>, FacadeError>)
        ensures
            r matches Err(e) ==> e is Inference,
    {
        let texts: Vec<String> = vec![String::from_str(text)];
        match self.embed(texts) {
            Ok(mut embeddings) => match embeddings.pop() {
                Some(v) => Ok(v),
                None => Err(
                    FacadeError::Inference(String::from_str("No embedding generated")),
                ),
            },
            Err(e) => Err(e),
        }
    }
}

} // verus!
