//! Why the program gives up. Every failure is fatal: nothing is retried.

use vstd::prelude::*;

verus! {

/// A failure before the loop starts.
#[derive(Clone, Copy, Debug, PartialEq, Eq, Structural)]
pub enum StartupResourceError {
    /// The image file is missing or cannot be read.
    AssetMissing,
    /// The image file cannot be decoded.
    AssetUndecodable,
    /// The pixel buffer does not hold four bytes for each pixel of the image.
    PixelDataMismatch,
    /// A side of the image is longer than a texture's side can be.
    TextureTooLarge,
    /// The device refused to create a texture or a buffer.
    ResourceRejected,
    /// The shaders did not compile or do not fit the pipeline's layout.
    PipelineRejected,
}

/// A failure while the loop runs.
#[derive(Clone, Copy, Debug, PartialEq, Eq, Structural)]
pub enum RuntimeDeviceError {
    /// The device did not take the frame's commands.
    FlushFailed,
    /// The window's buffers could not be swapped.
    PresentFailed,
}

/// How the program ended.
#[derive(Clone, Copy, Debug, PartialEq, Eq, Structural)]
pub enum Outcome {
    /// The user closed the window or pressed Escape.
    Finished,
    /// Startup failed; no window is left open.
    StartupFailed(StartupResourceError),
    /// A frame failed.
    DeviceFailed(RuntimeDeviceError),
}

/// The exit code of a program that ended because the user asked for it.
pub const EXIT_SUCCESS: i32 = 0;

/// The exit code of a program that gave up.
pub const EXIT_FAILURE: i32 = 101;

/// The exit code for an outcome: zero when the user ended the program, and
/// the failure code for every failure.
pub open spec fn exit_code_spec(outcome: Outcome) -> i32 {
    match outcome {
        Outcome::Finished => EXIT_SUCCESS,
        _ => EXIT_FAILURE,
    }
}

/// The exit code with which the program ends.
pub fn exit_code(outcome: Outcome) -> (code: i32)
    ensures
        code == exit_code_spec(outcome),
        (code == 0) == (outcome == Outcome::Finished),
{
    match outcome {
        Outcome::Finished => EXIT_SUCCESS,
        Outcome::StartupFailed(_) => EXIT_FAILURE,
        Outcome::DeviceFailed(_) => EXIT_FAILURE,
    }
}

} // verus!
