//! The status codes of GATT operations and their mapping to and from the
//! integers the native side uses.

use vstd::prelude::*;

verus! {

/// The outcome that the native side reports for a GATT operation.
///
/// The variants stand in ascending order of their codes, so the derived
/// ordering is the ordering of the codes.
#[derive(Clone, Copy, Debug, PartialEq, Eq, PartialOrd, Hash, Structural)]
pub enum GattStatus {
    /// The operation succeeded. Code `0x00`.
    Success,
    /// The attribute handle is not valid. Code `0x01`.
    InvalidHandle,
    /// The attribute may not be read. Code `0x02`.
    ReadNotPermit,
    /// The attribute may not be written. Code `0x03`.
    WriteNotPermit,
    /// The protocol data unit is not valid. Code `0x04`.
    InvalidPdu,
    /// The link is not authenticated well enough. Code `0x05`.
    InsufAuthentication,
    /// The request is not supported. Code `0x06`.
    ReqNotSupported,
    /// The offset is past the end of the attribute. Code `0x07`.
    InvalidOffset,
    /// The requester is not authorized. Code `0x08`.
    InsufAuthorization,
    /// The queue of prepared writes is full. Code `0x09`.
    PrepareQFull,
    /// No attribute was found. Code `0x0a`.
    NotFound,
    /// The attribute cannot be read in parts. Code `0x0b`.
    NotLong,
    /// The encryption key is too short. Code `0x0c`.
    InsufKeySize,
    /// The value has the wrong length. Code `0x0d`.
    InvalidAttrLen,
    /// An unlikely error occurred. Code `0x0e`.
    ErrUnlikely,
    /// The link is not encrypted well enough. Code `0x0f`.
    InsufEncryption,
    /// The attribute type is no supported grouping. Code `0x10`.
    UnsupportGrpType,
    /// Too few resources to complete the request. Code `0x11`.
    InsufResource,
    /// The database is out of sync. Code `0x12`.
    DatabaseOutOfSync,
    /// The value is not allowed. Code `0x13`.
    ValueNotAllowed,
    /// The data is too short. Code `0x7f`.
    TooShort,
    /// No resources are left. Code `0x80`.
    NoResources,
    /// An internal error occurred. Code `0x81`.
    InternalError,
    /// The operation does not fit the current state. Code `0x82`.
    WrongState,
    /// The database is full. Code `0x83`.
    DbFull,
    /// The stack is busy. Code `0x84`.
    Busy,
    /// A general error. Code `0x85`.
    Error,
    /// The command has started. Code `0x86`.
    CmdStarted,
    /// A parameter is not legal. Code `0x87`.
    IllegalParameter,
    /// The operation is pending. Code `0x88`.
    Pending,
    /// Authentication failed. Code `0x89`.
    AuthFail,
    /// More data follows. Code `0x8a`.
    More,
    /// The configuration is not valid. Code `0x8b`.
    InvalidCfg,
    /// The service has started. Code `0x8c`.
    ServiceStarted,
    /// Encrypted, without protection against a man in the middle. Code `0x8d`.
    EncryptedNoMitm,
    /// The link is not encrypted. Code `0x8e`.
    NotEncrypted,
    /// The channel is congested. Code `0x8f`.
    Congested,
    /// The registration is a duplicate. Code `0x90`.
    DupReg,
    /// The connection is open already. Code `0x91`.
    AlreadyOpen,
    /// The operation was cancelled. Code `0x92`.
    Cancel,
    /// The client characteristic configuration descriptor is improperly configured. Code `0xfd`.
    CccCfgErr,
    /// The procedure is in progress already. Code `0xfe`.
    PrcInProgress,
    /// The attribute value is out of range. Code `0xff`.
    OutOfRange,
}

impl GattStatus {
    /// The integer that the native side uses for this status.
    pub open spec fn code(self) -> int {
        match self {
            GattStatus::Success => 0x00,
            GattStatus::InvalidHandle => 0x01,
            GattStatus::ReadNotPermit => 0x02,
            GattStatus::WriteNotPermit => 0x03,
            GattStatus::InvalidPdu => 0x04,
            GattStatus::InsufAuthentication => 0x05,
            GattStatus::ReqNotSupported => 0x06,
            GattStatus::InvalidOffset => 0x07,
            GattStatus::InsufAuthorization => 0x08,
            GattStatus::PrepareQFull => 0x09,
            GattStatus::NotFound => 0x0a,
            GattStatus::NotLong => 0x0b,
            GattStatus::InsufKeySize => 0x0c,
            GattStatus::InvalidAttrLen => 0x0d,
            GattStatus::ErrUnlikely => 0x0e,
            GattStatus::InsufEncryption => 0x0f,
            GattStatus::UnsupportGrpType => 0x10,
            GattStatus::InsufResource => 0x11,
            GattStatus::DatabaseOutOfSync => 0x12,
            GattStatus::ValueNotAllowed => 0x13,
            GattStatus::TooShort => 0x7f,
            GattStatus::NoResources => 0x80,
            GattStatus::InternalError => 0x81,
            GattStatus::WrongState => 0x82,
            GattStatus::DbFull => 0x83,
            GattStatus::Busy => 0x84,
            GattStatus::Error => 0x85,
            GattStatus::CmdStarted => 0x86,
            GattStatus::IllegalParameter => 0x87,
            GattStatus::Pending => 0x88,
            GattStatus::AuthFail => 0x89,
            GattStatus::More => 0x8a,
            GattStatus::InvalidCfg => 0x8b,
            GattStatus::ServiceStarted => 0x8c,
            GattStatus::EncryptedNoMitm => 0x8d,
            GattStatus::NotEncrypted => 0x8e,
            GattStatus::Congested => 0x8f,
            GattStatus::DupReg => 0x90,
            GattStatus::AlreadyOpen => 0x91,
            GattStatus::Cancel => 0x92,
            GattStatus::CccCfgErr => 0xfd,
            GattStatus::PrcInProgress => 0xfe,
            GattStatus::OutOfRange => 0xff,
        }
    }

    /// Whether some status has this code.
    pub open spec fn is_defined(code: int) -> bool {
        exists|s: GattStatus| s.code() == code
    }

    /// The status with this code, if there is one.
    pub open spec fn of_code(code: int) -> Option<GattStatus> {
        if Self::is_defined(code) {
            Some(choose|s: GattStatus| s.code() == code)
        } else {
            None
        }
    }

    /// Two statuses with the same code are the same status.
    pub proof fn lemma_code_injective(a: GattStatus, b: GattStatus)
        requires
            a.code() == b.code(),
        ensures
            a == b,
    {
    }

    /// Every code lies in the range of one byte.
    pub proof fn lemma_code_range(s: GattStatus)
        ensures
            0 <= s.code() <= 0xff,
    {
    }

    /// Decoding the code of a status gives that status back.
    pub proof fn lemma_decode_of_code(s: GattStatus)
        ensures
            Self::of_code(s.code()) == Some(s),
    {
        assert(Self::is_defined(s.code()));
        let t = choose|t: GattStatus| t.code() == s.code();
        Self::lemma_code_injective(s, t);
    }

    /// A code that decodes to a status is the code of that status: decoding
    /// and encoding again gives the integer one started with.
    pub proof fn lemma_code_of_decoded(code: int)
        requires
            Self::of_code(code) is Some,
        ensures
            Self::of_code(code)->0.code() == code,
    {
    }

    /// A code that no status has decodes to nothing; it is never mapped to
    /// some default status.
    pub proof fn lemma_undefined_code_rejected(code: int)
        requires
            forall|s: GattStatus| s.code() != code,
        ensures
            Self::of_code(code) is None,
    {
    }

    /// A code decodes to a status exactly when it is the code of one, and
    /// then to that one.
    pub proof fn lemma_decode_iff(code: int, s: GattStatus)
        ensures
            Self::of_code(code) == Some(s) <==> s.code() == code,
    {
        if s.code() == code {
            Self::lemma_decode_of_code(s);
        }
    }

    /// The integer that the native side uses for this status.
    pub fn to_u32(&self) -> (code: u32)
        ensures
            code == self.code(),
    {
        match self {
            GattStatus::Success => 0x00,
            GattStatus::InvalidHandle => 0x01,
            GattStatus::ReadNotPermit => 0x02,
            GattStatus::WriteNotPermit => 0x03,
            GattStatus::InvalidPdu => 0x04,
            GattStatus::InsufAuthentication => 0x05,
            GattStatus::ReqNotSupported => 0x06,
            GattStatus::InvalidOffset => 0x07,
            GattStatus::InsufAuthorization => 0x08,
            GattStatus::PrepareQFull => 0x09,
            GattStatus::NotFound => 0x0a,
            GattStatus::NotLong => 0x0b,
            GattStatus::InsufKeySize => 0x0c,
            GattStatus::InvalidAttrLen => 0x0d,
            GattStatus::ErrUnlikely => 0x0e,
            GattStatus::InsufEncryption => 0x0f,
            GattStatus::UnsupportGrpType => 0x10,
            GattStatus::InsufResource => 0x11,
            GattStatus::DatabaseOutOfSync => 0x12,
            GattStatus::ValueNotAllowed => 0x13,
            GattStatus::TooShort => 0x7f,
            GattStatus::NoResources => 0x80,
            GattStatus::InternalError => 0x81,
            GattStatus::WrongState => 0x82,
            GattStatus::DbFull => 0x83,
            GattStatus::Busy => 0x84,
            GattStatus::Error => 0x85,
            GattStatus::CmdStarted => 0x86,
            GattStatus::IllegalParameter => 0x87,
            GattStatus::Pending => 0x88,
            GattStatus::AuthFail => 0x89,
            GattStatus::More => 0x8a,
            GattStatus::InvalidCfg => 0x8b,
            GattStatus::ServiceStarted => 0x8c,
            GattStatus::EncryptedNoMitm => 0x8d,
            GattStatus::NotEncrypted => 0x8e,
            GattStatus::Congested => 0x8f,
            GattStatus::DupReg => 0x90,
            GattStatus::AlreadyOpen => 0x91,
            GattStatus::Cancel => 0x92,
            GattStatus::CccCfgErr => 0xfd,
            GattStatus::PrcInProgress => 0xfe,
            GattStatus::OutOfRange => 0xff,
        }
    }

    /// The code of this status as a signed integer.
    pub fn to_i32(&self) -> (code: i32)
        ensures
            code == self.code(),
    {
        proof {
            Self::lemma_code_range(*self);
        }
        self.to_u32() as i32
    }

    /// The code of this status as a wide unsigned integer.
    pub fn to_u64(&self) -> (code: u64)
        ensures
            code == self.code(),
    {
        proof {
            Self::lemma_code_range(*self);
        }
        self.to_u32() as u64
    }

    /// The code of this status as a wide signed integer.
    pub fn to_i64(&self) -> (code: i64)
        ensures
            code == self.code(),
    {
        proof {
            Self::lemma_code_range(*self);
        }
        self.to_u32() as i64
    }

    /// The code of this status as one byte.
    pub fn to_u8(&self) -> (code: u8)
        ensures
            code == self.code(),
    {
        proof {
            Self::lemma_code_range(*self);
        }
        self.to_u32() as u8
    }

    /// Decodes a code that the native side returned. `None` means that the
    /// code is not one of the defined codes.
    pub fn from_u32(code: u32) -> (status: Option<GattStatus>)
        ensures
            status == Self::of_code(code as int),
            status is Some <==> Self::is_defined(code as int),
    {
        let status = match code {
            0x00 => Some(GattStatus::Success),
            0x01 => Some(GattStatus::InvalidHandle),
            0x02 => Some(GattStatus::ReadNotPermit),
            0x03 => Some(GattStatus::WriteNotPermit),
            0x04 => Some(GattStatus::InvalidPdu),
            0x05 => Some(GattStatus::InsufAuthentication),
            0x06 => Some(GattStatus::ReqNotSupported),
            0x07 => Some(GattStatus::InvalidOffset),
            0x08 => Some(GattStatus::InsufAuthorization),
            0x09 => Some(GattStatus::PrepareQFull),
            0x0a => Some(GattStatus::NotFound),
            0x0b => Some(GattStatus::NotLong),
            0x0c => Some(GattStatus::InsufKeySize),
            0x0d => Some(GattStatus::InvalidAttrLen),
            0x0e => Some(GattStatus::ErrUnlikely),
            0x0f => Some(GattStatus::InsufEncryption),
            0x10 => Some(GattStatus::UnsupportGrpType),
            0x11 => Some(GattStatus::InsufResource),
            0x12 => Some(GattStatus::DatabaseOutOfSync),
            0x13 => Some(GattStatus::ValueNotAllowed),
            0x7f => Some(GattStatus::TooShort),
            0x80 => Some(GattStatus::NoResources),
            0x81 => Some(GattStatus::InternalError),
            0x82 => Some(GattStatus::WrongState),
            0x83 => Some(GattStatus::DbFull),
            0x84 => Some(GattStatus::Busy),
            0x85 => Some(GattStatus::Error),
            0x86 => Some(GattStatus::CmdStarted),
            0x87 => Some(GattStatus::IllegalParameter),
            0x88 => Some(GattStatus::Pending),
            0x89 => Some(GattStatus::AuthFail),
            0x8a => Some(GattStatus::More),
            0x8b => Some(GattStatus::InvalidCfg),
            0x8c => Some(GattStatus::ServiceStarted),
            0x8d => Some(GattStatus::EncryptedNoMitm),
            0x8e => Some(GattStatus::NotEncrypted),
            0x8f => Some(GattStatus::Congested),
            0x90 => Some(GattStatus::DupReg),
            0x91 => Some(GattStatus::AlreadyOpen),
            0x92 => Some(GattStatus::Cancel),
            0xfd => Some(GattStatus::CccCfgErr),
            0xfe => Some(GattStatus::PrcInProgress),
            0xff => Some(GattStatus::OutOfRange),
            _ => None,
        };
        proof {
            match status {
                Some(s) => {
                    Self::lemma_decode_of_code(s);
                },
                None => {
                    assert forall|s: GattStatus| s.code() != code as int by {
                        Self::lemma_code_range(s);
                    }
                },
            }
        }
        status
    }

    /// Decodes a signed code. Negative codes are never defined.
    pub fn from_i32(code: i32) -> (status: Option<GattStatus>)
        ensures
            status == Self::of_code(code as int),
            status is Some <==> Self::is_defined(code as int),
    {
        if code < 0 {
            proof {
                assert forall|s: GattStatus| s.code() != code as int by {
                    Self::lemma_code_range(s);
                }
            }
            None
        } else {
            Self::from_u32(code as u32)
        }
    }

    /// Decodes a code given as a wide unsigned integer.
    pub fn from_u64(code: u64) -> (status: Option<GattStatus>)
        ensures
            status == Self::of_code(code as int),
            status is Some <==> Self::is_defined(code as int),
    {
        if code > 0xff {
            proof {
                assert forall|s: GattStatus| s.code() != code as int by {
                    Self::lemma_code_range(s);
                }
            }
            None
        } else {
            Self::from_u32(code as u32)
        }
    }

    /// Decodes a code given as a wide signed integer. Negative codes are
    /// never defined.
    pub fn from_i64(code: i64) -> (status: Option<GattStatus>)
        ensures
            status == Self::of_code(code as int),
            status is Some <==> Self::is_defined(code as int),
    {
        if code < 0 || code > 0xff {
            proof {
                assert forall|s: GattStatus| s.code() != code as int by {
                    Self::lemma_code_range(s);
                }
            }
            None
        } else {
            Self::from_u32(code as u32)
        }
    }

    /// Decodes a code of one byte.
    pub fn from_u8(code: u8) -> (status: Option<GattStatus>)
        ensures
            status == Self::of_code(code as int),
            status is Some <==> Self::is_defined(code as int),
    {
        Self::from_u32(code as u32)
    }
}

} // verus!
