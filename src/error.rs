use vstd::prelude::*;

verus! {

/// Every way a command can end, with its two-byte status word.
#[derive(Clone, Copy, Debug, PartialEq, Eq, Structural)]
pub enum ErrorCode {
    NothingReceived,
    Unknown,
    Unimplemented,
    BadCla,
    BadIns,
    BadP1P2,
    BadLen,
    BadPath,
    UserCancelled,
    ParsingError,
    ConversionError,
    CryptoError,
    SignatureError,
    Success,
    Panic,
}

/// The status word that the host receives for `e`.
pub open spec fn status_word_of(e: ErrorCode) -> u16 {
    match e {
        ErrorCode::NothingReceived => 0x6982,
        ErrorCode::Unknown => 0x6d00,
        ErrorCode::Unimplemented => 0x6d01,
        ErrorCode::BadCla => 0x6e00,
        ErrorCode::BadIns => 0x6e01,
        ErrorCode::BadP1P2 => 0x6e02,
        ErrorCode::BadLen => 0x6e03,
        ErrorCode::BadPath => 0x6f00,
        ErrorCode::UserCancelled => 0x6e04,
        ErrorCode::ParsingError => 0x7f00,
        ErrorCode::ConversionError => 0x7f01,
        ErrorCode::CryptoError => 0x7f02,
        ErrorCode::SignatureError => 0x7f03,
        ErrorCode::Success => 0x9000,
        ErrorCode::Panic => 0xe000,
    }
}

impl ErrorCode {
    /// The two-byte status word sent to the host for this outcome.
    pub fn status_word(&self) -> (r: u16)
        ensures
            r == status_word_of(*self),
    {
        match self {
            ErrorCode::NothingReceived => 0x6982,
            ErrorCode::Unknown => 0x6d00,
            ErrorCode::Unimplemented => 0x6d01,
            ErrorCode::BadCla => 0x6e00,
            ErrorCode::BadIns => 0x6e01,
            ErrorCode::BadP1P2 => 0x6e02,
            ErrorCode::BadLen => 0x6e03,
            ErrorCode::BadPath => 0x6f00,
            ErrorCode::UserCancelled => 0x6e04,
            ErrorCode::ParsingError => 0x7f00,
            ErrorCode::ConversionError => 0x7f01,
            ErrorCode::CryptoError => 0x7f02,
            ErrorCode::SignatureError => 0x7f03,
            ErrorCode::Success => 0x9000,
            ErrorCode::Panic => 0xe000,
        }
    }
}

#[verifier::external_type_specification]
#[verifier::external_body]
pub struct ExParseIntError(core::num::ParseIntError);

/// A number that does not parse is reported as `ParsingError`.
impl From<core::num::ParseIntError> for ErrorCode {
    fn from(_e: core::num::ParseIntError) -> ErrorCode {
        ErrorCode::ParsingError
    }
}

impl vstd::std_specs::convert::FromSpecImpl<core::num::ParseIntError> for ErrorCode {
    open spec fn obeys_from_spec() -> bool {
        true
    }

    open spec fn from_spec(_e: core::num::ParseIntError) -> ErrorCode {
        ErrorCode::ParsingError
    }
}

/// A schnorrkel failure is reported as `SignatureError`.
impl From<schnorrkel::SignatureError> for ErrorCode {
    fn from(_e: schnorrkel::SignatureError) -> ErrorCode {
        ErrorCode::SignatureError
    }
}

impl vstd::std_specs::convert::FromSpecImpl<schnorrkel::SignatureError> for ErrorCode {
    open spec fn obeys_from_spec() -> bool {
        true
    }

    open spec fn from_spec(_e: schnorrkel::SignatureError) -> ErrorCode {
        ErrorCode::SignatureError
    }
}

} // verus!
