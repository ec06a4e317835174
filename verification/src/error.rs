use vstd::prelude::*;

verus! {

/// The typed failures the instruction processor can report.
#[derive(Clone, Copy, Debug, PartialEq, Eq, Structural)]
pub enum CounterError {
    /// The invocation carried no storage-slot handles.
    MissingAccount,
    /// The stored state or the instruction payload failed to decode.
    DecodeError,
    /// The write-back buffer cannot hold the encoded state.
    WriteFailure,
}

} // verus!
