//! Error taxonomy of the backup pipeline.

use vstd::prelude::*;

verus! {

/// Error detail attached by the remote provider to a failed action.
#[derive(Clone, Debug)]
pub struct HetznerError {
    pub code: String,
    pub message: String,
}

impl HetznerError {
    /// A field-by-field copy with the same contents.
    pub fn duplicate(&self) -> (r: HetznerError)
        ensures
            r == *self,
    {
        HetznerError { code: self.code.clone(), message: self.message.clone() }
    }
}

/// Every failure the pipeline can surface. Each one is fatal to the run.
#[derive(Debug)]
pub enum HbpError {
    /// A network/transport failure while calling the provider.
    RemoteCallFailed(String),
    /// A required field was missing or malformed in a provider response.
    ResponseShapeError(String),
    /// A remote operation reached its terminal error state.
    ActionFailed { command: String, error: Option<HetznerError> },
    /// A required external transform process could not start.
    TransformUnavailable(String),
    /// A local filesystem or stream error.
    IoFailure(String),
    /// The remote synchronization step exited unsuccessfully.
    PushFailed(String),
}

} // verus!
