use vstd::prelude::*;

verus! {

/// Protocol outcome kinds, each mapping to one fixed 16-bit wire value
/// (the "status word" that terminates every command/response exchange).
#[derive(Clone, Copy, Debug, PartialEq, Eq, Structural)]
pub enum StatusWord {
    /// Success, no continuation pending (0x9000).
    Success,
    /// Success with more response bytes pending; the payload carries the
    /// count still readable through continue commands (0x6100 + n).
    MoreDataAvailable(u8),
    /// A declared length field does not match the actual payload (0x6700).
    WrongLength,
    /// A required security condition is not satisfied (0x6982).
    SecurityStatusNotSatisfied,
    /// The payload fails structural or content validation (0x6A80).
    WrongData,
    /// Unknown command code, or unsupported algorithm or key parameters
    /// (0x6A81).
    FuncNotSupported,
    /// The referenced data object does not exist (0x6A82).
    FileNotFound,
    /// A parameter byte does not match what the handler requires (0x6A86).
    IncorrectP1P2,
    /// Credential verification failed (0x6300).
    VerificationFailed,
}

/// The 16-bit wire value of each status word.
pub open spec fn spec_status_value(sw: StatusWord) -> u16 {
    match sw {
        StatusWord::Success => 0x9000u16,
        StatusWord::MoreDataAvailable(n) => (0x6100 + n as u16) as u16,
        StatusWord::WrongLength => 0x6700u16,
        StatusWord::SecurityStatusNotSatisfied => 0x6982u16,
        StatusWord::WrongData => 0x6A80u16,
        StatusWord::FuncNotSupported => 0x6A81u16,
        StatusWord::FileNotFound => 0x6A82u16,
        StatusWord::IncorrectP1P2 => 0x6A86u16,
        StatusWord::VerificationFailed => 0x6300u16,
    }
}

impl From<StatusWord> for u16 {
    fn from(sw: StatusWord) -> (r: u16) {
        match sw {
            StatusWord::Success => 0x9000,
            StatusWord::MoreDataAvailable(n) => 0x6100 + n as u16,
            StatusWord::WrongLength => 0x6700,
            StatusWord::SecurityStatusNotSatisfied => 0x6982,
            StatusWord::WrongData => 0x6A80,
            StatusWord::FuncNotSupported => 0x6A81,
            StatusWord::FileNotFound => 0x6A82,
            StatusWord::IncorrectP1P2 => 0x6A86,
            StatusWord::VerificationFailed => 0x6300,
        }
    }
}

impl vstd::std_specs::convert::FromSpecImpl<StatusWord> for u16 {
    open spec fn obeys_from_spec() -> bool {
        true
    }

    open spec fn from_spec(sw: StatusWord) -> u16 {
        spec_status_value(sw)
    }
}

} // verus!
