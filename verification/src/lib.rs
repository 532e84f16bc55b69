//! Text-embedding and cross-encoder reranking façades over a locally loaded
//! ONNX inference backend.
//!
//! The crate offers three pieces:
//!
//! - [`QuantizationType`], a closed set of precision choices for the
//!   EmbeddingGemma model family, each mapped to the artifact filenames the
//!   backend loader uses;
//! - [`TextEmbedder`], which owns one loaded embedding backend and turns
//!   batches of texts into fixed-width vectors;
//! - [`TextReranker`], which owns one loaded cross-encoder backend and scores
//!   documents against a query, returning them in descending relevance order.
//!
//! Each façade owns its backend exclusively; inference calls take `&mut self`
//! and concurrent use of one façade from several threads must be serialized by
//! the caller. Floating-point results cross the backend boundary as the raw
//! IEEE-754 bit patterns of their `f32` values, so that the batch contracts
//! can be stated and checked without floating-point arithmetic.

pub mod backend;
pub mod embedder;
pub mod errors;
pub mod reranker;

pub use embedder::{QuantizationType, TextEmbedder};
pub use errors::FacadeError;
pub use reranker::TextReranker;
