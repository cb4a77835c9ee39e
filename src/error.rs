use vstd::prelude::*;

verus! {

/// Everything that can end a brightness operation early.
#[derive(Debug, Clone, Copy, PartialEq, Eq, Structural)]
pub enum BrightnessError {
    /// No attached device matched the display's identity.
    DeviceNotFound,
    /// The device was found but could not be opened.
    OpenFailed,
    /// The device's interface could not be claimed (busy, or no permission).
    ClaimFailed,
    /// The control transfer failed or timed out.
    TransferFailed,
    /// The device answered with a report of the wrong length.
    UnexpectedResponseSize { expected: usize, actual: usize },
    /// A percent outside `0..=100`, or a step outside `1..=100`.
    InvalidInput,
    /// The pattern for display device nodes could not be compiled.
    InvalidPattern,
}

} // verus!
