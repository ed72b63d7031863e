use vstd::prelude::*;

use crate::codec::ImageTensor;

verus! {

/// Failure of one inference execution.
#[derive(Debug)]
pub enum InferenceError {
    /// The engine itself failed (a missing binding, an execution fault);
    /// carries the engine's own message.
    Engine(String),
    /// The engine returned score and class sequences of different lengths,
    /// so the positional pairing would silently drop candidates.
    OutputLengthMismatch,
}

impl InferenceError {
    /// A short description, for logs and error envelopes.
    pub fn message(&self) -> (r: &str)
        ensures
            self is Engine ==> r@ == self->Engine_0@,
            self is OutputLengthMismatch ==> r@ == "inference outputs disagree in length"@,
    {
        match self {
            InferenceError::Engine(m) => m.as_str(),
            InferenceError::OutputLengthMismatch => "inference outputs disagree in length",
        }
    }
}

/// Failure to bring up a model at process start. Fatal: the process must not
/// go on to serve.
#[derive(Debug)]
pub enum ModelLoadError {
    /// The model file does not exist.
    NotFound,
    /// The file exists but its bytes are not a valid serialized graph;
    /// carries the importer's message.
    GraphImport(String),
    /// The graph was imported but no executable session could be bound to
    /// it; carries the engine's message.
    SessionInit(String),
}

impl ModelLoadError {
    /// A short description, for the startup diagnostic.
    pub fn message(&self) -> (r: &str)
        ensures
            self is NotFound ==> r@ == "model file not found"@,
            self is GraphImport ==> r@ == self->GraphImport_0@,
            self is SessionInit ==> r@ == self->SessionInit_0@,
    {
        match self {
            ModelLoadError::NotFound => "model file not found",
            ModelLoadError::GraphImport(m) => m.as_str(),
            ModelLoadError::SessionInit(m) => m.as_str(),
        }
    }
}

/// The two fixed outputs of one inference execution, index-aligned by an
/// engine contract: candidate `i` has confidence `scores[i]` (in millionths)
/// and class id `classes[i]`.
#[derive(Debug)]
pub struct EngineOutput {
    pub scores: Vec<u32>,
    pub classes: Vec<i32>,
}

/// The inference engine behind one loaded model: executes the frozen graph
/// on one input tensor and yields the per-candidate score and class outputs.
///
/// `infer` takes `&self`, so one engine value may be shared read-only by any
/// number of concurrent callers; an implementation sees a caller's tensor
/// only through this call, and hands results back only through its return
/// value, so no caller can observe another caller's input or partial
/// results. An implementation whose execution handle is not itself safe for
/// concurrent use must serialize the execution internally rather than risk
/// incorrect output.
///
/// Nothing is promised of the outputs: every caller in this crate is
/// verified against every value an implementation could return.
pub trait Engine {
    fn infer(&self, tensor: &ImageTensor) -> Result<EngineOutput, InferenceError>
        requires
            tensor.wf(),
    ;
}

} // verus!
