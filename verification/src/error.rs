//! The error taxonomy of the engine.

use crate::platform::Platform;
use vstd::prelude::*;
use vstd::string::*;

verus! {

/// Everything that can go wrong with a job or with one of its phases.
#[derive(Clone, Copy, Debug, PartialEq, Eq)]
pub enum WipeError {
    /// The target path names nothing.
    DeviceNotFound,
    /// The target exists but write access to it was refused.
    PermissionDenied,
    /// The length probe failed, gave an implausible value, or the target
    /// changed its length while the job ran.
    SizeDeterminationFailed,
    /// The policy asks for no pass at all, or for an unusable chunk size.
    InvalidPolicy,
    /// A chunk could not be produced, written or made durable.
    IoErrorDuringPass { pass: u32, offset: u64 },
    /// The read-back differs from the terminal pattern from this offset on.
    VerificationMismatch(u64),
    /// Another job holds the target.
    DeviceBusy,
    /// The platform has no known facility that erases hidden areas.
    HiddenAreaUnsupported(Platform),
    /// The erase facility ran and failed; the exit status where there was one.
    HiddenAreaCommandFailed(Option<i32>),
    /// The caller asked the job to stop.
    Cancelled,
}

/// The kind of a [`WipeError`], without its details.
#[derive(Clone, Copy, Debug, PartialEq, Eq)]
pub enum ErrorKind {
    DeviceNotFound,
    PermissionDenied,
    SizeDeterminationFailed,
    InvalidPolicy,
    IoErrorDuringPass,
    VerificationMismatch,
    DeviceBusy,
    HiddenAreaUnsupported,
    HiddenAreaCommandFailed,
    Cancelled,
}

impl WipeError {
    /// The kind of this error.
    pub open spec fn spec_kind(self) -> ErrorKind {
        match self {
            WipeError::DeviceNotFound => ErrorKind::DeviceNotFound,
            WipeError::PermissionDenied => ErrorKind::PermissionDenied,
            WipeError::SizeDeterminationFailed => ErrorKind::SizeDeterminationFailed,
            WipeError::InvalidPolicy => ErrorKind::InvalidPolicy,
            WipeError::IoErrorDuringPass { .. } => ErrorKind::IoErrorDuringPass,
            WipeError::VerificationMismatch(_) => ErrorKind::VerificationMismatch,
            WipeError::DeviceBusy => ErrorKind::DeviceBusy,
            WipeError::HiddenAreaUnsupported(_) => ErrorKind::HiddenAreaUnsupported,
            WipeError::HiddenAreaCommandFailed(_) => ErrorKind::HiddenAreaCommandFailed,
            WipeError::Cancelled => ErrorKind::Cancelled,
        }
    }

    /// Whether the error belongs to the overwrite itself. Only such an error
    /// makes a job fail; the others are attached to a job that succeeded.
    pub open spec fn spec_fails_overwrite(self) -> bool {
        match self {
            WipeError::VerificationMismatch(_) => false,
            WipeError::HiddenAreaUnsupported(_) => false,
            WipeError::HiddenAreaCommandFailed(_) => false,
            _ => true,
        }
    }

    /// The kind of this error, for callers that branch on it.
    #[verifier::when_used_as_spec(spec_kind)]
    pub fn kind(self) -> (kind: ErrorKind)
        ensures
            kind == self.spec_kind(),
    {
        match self {
            WipeError::DeviceNotFound => ErrorKind::DeviceNotFound,
            WipeError::PermissionDenied => ErrorKind::PermissionDenied,
            WipeError::SizeDeterminationFailed => ErrorKind::SizeDeterminationFailed,
            WipeError::InvalidPolicy => ErrorKind::InvalidPolicy,
            WipeError::IoErrorDuringPass { .. } => ErrorKind::IoErrorDuringPass,
            WipeError::VerificationMismatch(_) => ErrorKind::VerificationMismatch,
            WipeError::DeviceBusy => ErrorKind::DeviceBusy,
            WipeError::HiddenAreaUnsupported(_) => ErrorKind::HiddenAreaUnsupported,
            WipeError::HiddenAreaCommandFailed(_) => ErrorKind::HiddenAreaCommandFailed,
            WipeError::Cancelled => ErrorKind::Cancelled,
        }
    }

    /// See [`WipeError::spec_fails_overwrite`].
    #[verifier::when_used_as_spec(spec_fails_overwrite)]
    pub fn fails_overwrite(self) -> (fails: bool)
        ensures
            fails == self.spec_fails_overwrite(),
    {
        match self {
            WipeError::VerificationMismatch(_) => false,
            WipeError::HiddenAreaUnsupported(_) => false,
            WipeError::HiddenAreaCommandFailed(_) => false,
            _ => true,
        }
    }

    /// A short diagnostic text for this error.
    pub fn message(self) -> (text: String)
        ensures
            text@ == self.spec_kind().spec_message(),
    {
        self.kind().message()
    }
}

impl ErrorKind {
    /// The diagnostic text of each kind.
    pub open spec fn spec_message(self) -> Seq<char> {
        match self {
            ErrorKind::DeviceNotFound => "Device not found"@,
            ErrorKind::PermissionDenied => "Permission denied"@,
            ErrorKind::SizeDeterminationFailed => "Device size could not be determined"@,
            ErrorKind::InvalidPolicy => "Invalid wipe policy"@,
            ErrorKind::IoErrorDuringPass => "I/O error during overwrite pass"@,
            ErrorKind::VerificationMismatch => "Read-back does not match the final pattern"@,
            ErrorKind::DeviceBusy => "Device is busy"@,
            ErrorKind::HiddenAreaUnsupported => "HPA/DCO erase is not supported here"@,
            ErrorKind::HiddenAreaCommandFailed => "HPA/DCO erase failed"@,
            ErrorKind::Cancelled => "Cancelled"@,
        }
    }

    /// A short diagnostic text for this kind.
    pub fn message(self) -> (text: String)
        ensures
            text@ == self.spec_message(),
    {
        match self {
            ErrorKind::DeviceNotFound => String::from_str("Device not found"),
            ErrorKind::PermissionDenied => String::from_str("Permission denied"),
            ErrorKind::SizeDeterminationFailed => String::from_str(
                "Device size could not be determined",
            ),
            ErrorKind::InvalidPolicy => String::from_str("Invalid wipe policy"),
            ErrorKind::IoErrorDuringPass => String::from_str("I/O error during overwrite pass"),
            ErrorKind::VerificationMismatch => String::from_str(
                "Read-back does not match the final pattern",
            ),
            ErrorKind::DeviceBusy => String::from_str("Device is busy"),
            ErrorKind::HiddenAreaUnsupported => String::from_str(
                "HPA/DCO erase is not supported here",
            ),
            ErrorKind::HiddenAreaCommandFailed => String::from_str("HPA/DCO erase failed"),
            ErrorKind::Cancelled => String::from_str("Cancelled"),
        }
    }
}

} // verus!
