//! The failure kinds both façades surface to their callers.

use vstd::prelude::*;

verus! {

/// A failure of a façade operation.
///
/// `ModelLoad` is raised only while a façade is being constructed (artifact
/// fetch failure, corrupt or missing weight file, unsupported model
/// identifier); no façade value exists after such a failure. `Inference` is
/// raised only by batch embedding or rerank calls on an already loaded
/// backend. Both carry the backend's diagnostic text, prefixed with the
/// operation that failed; nothing is swallowed or retried.
#[derive(Debug, Clone)]
pub enum FacadeError {
    /// Backend construction failed; the façade was not built.
    ModelLoad(String),
    /// A batch embedding or rerank call failed after the backend was loaded.
    Inference(String),
}

impl FacadeError {
    /// The diagnostic text carried by the error.
    pub open spec fn message_spec(self) -> Seq<char> {
        match self {
            FacadeError::ModelLoad(m) => m@,
            FacadeError::Inference(m) => m@,
        }
    }

    /// Returns the diagnostic text carried by the error.
    pub fn message(&self) -> (r: &str)
        ensures
            r@ == self.message_spec(),
    {
        match self {
            FacadeError::ModelLoad(m) => m.as_str(),
            FacadeError::Inference(m) => m.as_str(),
        }
    }
}

} // verus!
