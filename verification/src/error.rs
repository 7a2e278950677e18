use vstd::prelude::*;

use crate::status::{spec_status_value, StatusWord};

verus! {

/// The closed, flat error taxonomy of the command handlers.  Each kind maps
/// to exactly one status word; the parameter kinds carry the expected and
/// actual bytes as diagnostic fields only, without affecting the wire value.
#[derive(Clone, Copy, Debug, PartialEq, Eq, Structural)]
pub enum PIVError {
    /// Credential verification failed.
    VerificationFailed,
    /// A declared length field does not match the actual payload.
    WrongLength { expected: usize, actual: usize },
    /// A required security condition is not satisfied.
    SecurityStatusNotSatisfied,
    /// The payload fails structural or content validation.
    WrongData,
    /// Unknown command code, or unsupported algorithm or key parameters.
    FuncNotSupported,
    /// The referenced data object does not exist.
    FileNotFound,
    /// The first parameter byte differs from what the handler requires.
    IncorrectP1 { expected: u8, actual: u8 },
    /// The second parameter byte differs from what the handler requires.
    IncorrectP2 { expected: u8, actual: u8 },
    /// The transport reported an error while reading the payload; the
    /// transport's own status word is forwarded unchanged.
    DataError { status: u16 },
}

/// The 16-bit wire value each error kind is reported with.
pub open spec fn spec_error_value(e: PIVError) -> u16 {
    match e {
        PIVError::VerificationFailed => spec_status_value(StatusWord::VerificationFailed),
        PIVError::WrongLength { .. } => spec_status_value(StatusWord::WrongLength),
        PIVError::SecurityStatusNotSatisfied => spec_status_value(
            StatusWord::SecurityStatusNotSatisfied,
        ),
        PIVError::WrongData => spec_status_value(StatusWord::WrongData),
        PIVError::FuncNotSupported => spec_status_value(StatusWord::FuncNotSupported),
        PIVError::FileNotFound => spec_status_value(StatusWord::FileNotFound),
        PIVError::IncorrectP1 { .. } => spec_status_value(StatusWord::IncorrectP1P2),
        PIVError::IncorrectP2 { .. } => spec_status_value(StatusWord::IncorrectP1P2),
        PIVError::DataError { status } => status,
    }
}

impl From<PIVError> for u16 {
    fn from(e: PIVError) -> (r: u16) {
        match e {
            PIVError::VerificationFailed => 0x6300,
            PIVError::WrongLength { .. } => 0x6700,
            PIVError::SecurityStatusNotSatisfied => 0x6982,
            PIVError::WrongData => 0x6A80,
            PIVError::FuncNotSupported => 0x6A81,
            PIVError::FileNotFound => 0x6A82,
            PIVError::IncorrectP1 { .. } => 0x6A86,
            PIVError::IncorrectP2 { .. } => 0x6A86,
            PIVError::DataError { status } => status,
        }
    }
}

impl vstd::std_specs::convert::FromSpecImpl<PIVError> for u16 {
    open spec fn obeys_from_spec() -> bool {
        true
    }

    open spec fn from_spec(e: PIVError) -> u16 {
        spec_error_value(e)
    }
}

} // verus!
