use vstd::prelude::*;

verus! {

/// The discriminated failures this layer can surface to a caller.
///
/// `InvalidHandle`: a handle was absent from the table, named an entry of the
/// wrong kind, or had already been destructively taken.
/// `InvalidEncoderState`: an operation that needs a recording encoder reached
/// one that is no longer recording.
/// `EncoderOperationFailed`: a structural ordering violation while recording
/// (an unbalanced debug group, a pass still open when the encoder is finished).
/// `BackendFailure`: an opaque lower-level device error.
#[derive(Clone, Copy, Debug, PartialEq, Eq, Structural)]
pub enum WebGpuError {
    InvalidHandle,
    InvalidEncoderState,
    EncoderOperationFailed,
    BackendFailure,
}

} // verus!
