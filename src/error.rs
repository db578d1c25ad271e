use vstd::prelude::*;

verus! {

/// Every way a run of the pipeline can fail. Each one ends the run.
#[derive(Clone, Debug, PartialEq, Eq)]
pub enum PipelineError {
    /// No compute-capable device is present on the host.
    NoDevice,
    /// The input image could not be decoded.
    Decode(String),
    /// The output image could not be encoded or written.
    Encode(String),
    /// The kernel source did not compile; holds the compiler's diagnostics.
    Compile(String),
    /// The compiled program has no function of the requested name.
    EntryPointNotFound(String),
    /// A byte count disagrees with the surface it is meant for.
    SizeMismatch { expected: u128, actual: u128 },
    /// Two surfaces of one job have different pixel formats.
    FormatMismatch,
    /// A surface was asked for with a zero width or height.
    EmptySurface,
    /// The device reported a failure; holds its diagnostic.
    Device(String),
    /// An outcome was reported that does not follow the last action.
    InvalidTransition,
}

} // verus!
