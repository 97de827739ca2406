//! Code spaces of the DCC command station messages.

use vstd::prelude::*;
use crate::error::CodeSpace;
use crate::error::UndefinedCode;
use crate::registry::CodeRegistry;
use crate::registry::TypedIdentifier;
use crate::registry::checked;

verus! {

/// The speed step modes of a throttle session.
#[derive(Debug, Clone, Copy, PartialEq, Eq, Structural)]
pub enum DccThrottleMode {
    /// 128-step speed mode
    Step128,
    /// 14-step speed mode
    Step14,
    /// interleaved 28-step speed mode
    Step28Interleaved,
    /// 28-step speed mode
    Step28,
}

impl TypedIdentifier for DccThrottleMode {
    open spec fn code(self) -> u8 {
        match self {
            DccThrottleMode::Step128 => 0,
            DccThrottleMode::Step14 => 1,
            DccThrottleMode::Step28Interleaved => 2,
            DccThrottleMode::Step28 => 3,
        }
    }

    open spec fn decode(code: u8) -> Option<Self> {
        match code {
            0 => Some(DccThrottleMode::Step128),
            1 => Some(DccThrottleMode::Step14),
            2 => Some(DccThrottleMode::Step28Interleaved),
            3 => Some(DccThrottleMode::Step28),
            _ => None,
        }
    }

    open spec fn space() -> CodeSpace {
        CodeSpace::DccThrottleMode
    }

    proof fn lemma_decode_inverts_code(i: Self, code: u8) {
    }
}

impl CodeRegistry for DccThrottleMode {
    fn to_code(self) -> (c: u8) {
        match self {
            DccThrottleMode::Step128 => 0,
            DccThrottleMode::Step14 => 1,
            DccThrottleMode::Step28Interleaved => 2,
            DccThrottleMode::Step28 => 3,
        }
    }

    fn try_from_code(code: u8) -> (r: Result<Self, UndefinedCode>) {
        assert(Self::space() == CodeSpace::DccThrottleMode);
        match code {
            0 => Ok(DccThrottleMode::Step128),
            1 => Ok(DccThrottleMode::Step14),
            2 => Ok(DccThrottleMode::Step28Interleaved),
            3 => Ok(DccThrottleMode::Step28),
            _ => Err(UndefinedCode { space: CodeSpace::DccThrottleMode, value: code }),
        }
    }
}

impl From<DccThrottleMode> for u8 {
    /// The wire byte of `value`.
    fn from(value: DccThrottleMode) -> (c: u8) {
        value.to_code()
    }
}

impl vstd::std_specs::convert::FromSpecImpl<DccThrottleMode> for u8 {
    open spec fn obeys_from_spec() -> bool {
        true
    }

    open spec fn from_spec(value: DccThrottleMode) -> u8 {
        value.code()
    }
}

impl TryFrom<u8> for DccThrottleMode {
    type Error = UndefinedCode;

    /// The checked conversion of `code`.
    fn try_from(code: u8) -> (r: Result<DccThrottleMode, UndefinedCode>) {
        DccThrottleMode::try_from_code(code)
    }
}

impl vstd::std_specs::convert::TryFromSpecImpl<u8> for DccThrottleMode {
    open spec fn obeys_try_from_spec() -> bool {
        true
    }

    open spec fn try_from_spec(code: u8) -> Result<DccThrottleMode, UndefinedCode> {
        checked::<DccThrottleMode>(code)
    }
}

/// The status codes that end a service mode programming operation.
#[derive(Debug, Clone, Copy, PartialEq, Eq, Structural)]
pub enum DccServiceModeStatus {
    /// No acknowledgement from the decoder
    NoAck,
    /// Overload on the programming track
    Ovld,
    /// Write acknowledged
    WriteAck,
    /// The programmer is busy
    Busy,
    /// The CV is out of range
    CvError,
}

impl TypedIdentifier for DccServiceModeStatus {
    open spec fn code(self) -> u8 {
        match self {
            DccServiceModeStatus::NoAck => 1,
            DccServiceModeStatus::Ovld => 2,
            DccServiceModeStatus::WriteAck => 3,
            DccServiceModeStatus::Busy => 4,
            DccServiceModeStatus::CvError => 5,
        }
    }

    open spec fn decode(code: u8) -> Option<Self> {
        match code {
            1 => Some(DccServiceModeStatus::NoAck),
            2 => Some(DccServiceModeStatus::Ovld),
            3 => Some(DccServiceModeStatus::WriteAck),
            4 => Some(DccServiceModeStatus::Busy),
            5 => Some(DccServiceModeStatus::CvError),
            _ => None,
        }
    }

    open spec fn space() -> CodeSpace {
        CodeSpace::DccServiceModeStatus
    }

    proof fn lemma_decode_inverts_code(i: Self, code: u8) {
    }
}

impl CodeRegistry for DccServiceModeStatus {
    fn to_code(self) -> (c: u8) {
        match self {
            DccServiceModeStatus::NoAck => 1,
            DccServiceModeStatus::Ovld => 2,
            DccServiceModeStatus::WriteAck => 3,
            DccServiceModeStatus::Busy => 4,
            DccServiceModeStatus::CvError => 5,
        }
    }

    fn try_from_code(code: u8) -> (r: Result<Self, UndefinedCode>) {
        assert(Self::space() == CodeSpace::DccServiceModeStatus);
        match code {
            1 => Ok(DccServiceModeStatus::NoAck),
            2 => Ok(DccServiceModeStatus::Ovld),
            3 => Ok(DccServiceModeStatus::WriteAck),
            4 => Ok(DccServiceModeStatus::Busy),
            5 => Ok(DccServiceModeStatus::CvError),
            _ => Err(UndefinedCode { space: CodeSpace::DccServiceModeStatus, value: code }),
        }
    }
}

impl From<DccServiceModeStatus> for u8 {
    /// The wire byte of `value`.
    fn from(value: DccServiceModeStatus) -> (c: u8) {
        value.to_code()
    }
}

impl vstd::std_specs::convert::FromSpecImpl<DccServiceModeStatus> for u8 {
    open spec fn obeys_from_spec() -> bool {
        true
    }

    open spec fn from_spec(value: DccServiceModeStatus) -> u8 {
        value.code()
    }
}

impl TryFrom<u8> for DccServiceModeStatus {
    type Error = UndefinedCode;

    /// The checked conversion of `code`.
    fn try_from(code: u8) -> (r: Result<DccServiceModeStatus, UndefinedCode>) {
        DccServiceModeStatus::try_from_code(code)
    }
}

impl vstd::std_specs::convert::TryFromSpecImpl<u8> for DccServiceModeStatus {
    open spec fn obeys_try_from_spec() -> bool {
        true
    }

    open spec fn try_from_spec(code: u8) -> Result<DccServiceModeStatus, UndefinedCode> {
        checked::<DccServiceModeStatus>(code)
    }
}

/// The error codes that a command station reports.
#[derive(Debug, Clone, Copy, PartialEq, Eq, Structural)]
pub enum DccError {
    /// The loco stack is full
    LocoStackIsFull,
    /// The loco address is taken
    LocoAddressIsTaken,
    /// The session is not present
    SessionIsNotPresent,
    /// The consist is empty
    EmptyConsist,
    /// The loco was not found
    LocoWasNotFound,
    /// The receive buffer overflowed
    RxBufferOverflow,
    /// The request is invalid
    InvalidRequest,
    /// The session was cancelled
    SessionWasCancelled,
}

impl TypedIdentifier for DccError {
    open spec fn code(self) -> u8 {
        match self {
            DccError::LocoStackIsFull => 1,
            DccError::LocoAddressIsTaken => 2,
            DccError::SessionIsNotPresent => 3,
            DccError::EmptyConsist => 4,
            DccError::LocoWasNotFound => 5,
            DccError::RxBufferOverflow => 6,
            DccError::InvalidRequest => 7,
            DccError::SessionWasCancelled => 8,
        }
    }

    open spec fn decode(code: u8) -> Option<Self> {
        match code {
            1 => Some(DccError::LocoStackIsFull),
            2 => Some(DccError::LocoAddressIsTaken),
            3 => Some(DccError::SessionIsNotPresent),
            4 => Some(DccError::EmptyConsist),
            5 => Some(DccError::LocoWasNotFound),
            6 => Some(DccError::RxBufferOverflow),
            7 => Some(DccError::InvalidRequest),
            8 => Some(DccError::SessionWasCancelled),
            _ => None,
        }
    }

    open spec fn space() -> CodeSpace {
        CodeSpace::DccError
    }

    proof fn lemma_decode_inverts_code(i: Self, code: u8) {
    }
}

impl CodeRegistry for DccError {
    fn to_code(self) -> (c: u8) {
        match self {
            DccError::LocoStackIsFull => 1,
            DccError::LocoAddressIsTaken => 2,
            DccError::SessionIsNotPresent => 3,
            DccError::EmptyConsist => 4,
            DccError::LocoWasNotFound => 5,
            DccError::RxBufferOverflow => 6,
            DccError::InvalidRequest => 7,
            DccError::SessionWasCancelled => 8,
        }
    }

    fn try_from_code(code: u8) -> (r: Result<Self, UndefinedCode>) {
        assert(Self::space() == CodeSpace::DccError);
        match code {
            1 => Ok(DccError::LocoStackIsFull),
            2 => Ok(DccError::LocoAddressIsTaken),
            3 => Ok(DccError::SessionIsNotPresent),
            4 => Ok(DccError::EmptyConsist),
            5 => Ok(DccError::LocoWasNotFound),
            6 => Ok(DccError::RxBufferOverflow),
            7 => Ok(DccError::InvalidRequest),
            8 => Ok(DccError::SessionWasCancelled),
            _ => Err(UndefinedCode { space: CodeSpace::DccError, value: code }),
        }
    }
}

impl From<DccError> for u8 {
    /// The wire byte of `value`.
    fn from(value: DccError) -> (c: u8) {
        value.to_code()
    }
}

impl vstd::std_specs::convert::FromSpecImpl<DccError> for u8 {
    open spec fn obeys_from_spec() -> bool {
        true
    }

    open spec fn from_spec(value: DccError) -> u8 {
        value.code()
    }
}

impl TryFrom<u8> for DccError {
    type Error = UndefinedCode;

    /// The checked conversion of `code`.
    fn try_from(code: u8) -> (r: Result<DccError, UndefinedCode>) {
        DccError::try_from_code(code)
    }
}

impl vstd::std_specs::convert::TryFromSpecImpl<u8> for DccError {
    open spec fn obeys_try_from_spec() -> bool {
        true
    }

    open spec fn try_from_spec(code: u8) -> Result<DccError, UndefinedCode> {
        checked::<DccError>(code)
    }
}

/// The aspect codes of the first aspect byte of cab signalling data.
///
/// The colours in brackets are those of UK colour light signalling; other
/// signalling systems may show the aspects differently.
#[derive(Debug, Clone, Copy, PartialEq, Eq, Structural)]
pub enum CabSignallingAspect1 {
    /// Danger (red)
    Danger,
    /// Caution (yellow)
    Caution,
    /// Preliminary caution (double yellow)
    PreliminaryCaution,
    /// Proceed (green)
    Proceed,
    /// Set bit 2 for call-on - main aspect will usually be at danger
    CallOn,
    /// Set bit 3 to 0 for upper nibble is feather location, set 1 for upper nibble is theatre code
    Theatre,
}

impl TypedIdentifier for CabSignallingAspect1 {
    open spec fn code(self) -> u8 {
        match self {
            CabSignallingAspect1::Danger => 0,
            CabSignallingAspect1::Caution => 1,
            CabSignallingAspect1::PreliminaryCaution => 2,
            CabSignallingAspect1::Proceed => 3,
            CabSignallingAspect1::CallOn => 4,
            CabSignallingAspect1::Theatre => 8,
        }
    }

    open spec fn decode(code: u8) -> Option<Self> {
        match code {
            0 => Some(CabSignallingAspect1::Danger),
            1 => Some(CabSignallingAspect1::Caution),
            2 => Some(CabSignallingAspect1::PreliminaryCaution),
            3 => Some(CabSignallingAspect1::Proceed),
            4 => Some(CabSignallingAspect1::CallOn),
            8 => Some(CabSignallingAspect1::Theatre),
            _ => None,
        }
    }

    open spec fn space() -> CodeSpace {
        CodeSpace::CabSignallingAspect1
    }

    proof fn lemma_decode_inverts_code(i: Self, code: u8) {
    }
}

impl CodeRegistry for CabSignallingAspect1 {
    fn to_code(self) -> (c: u8) {
        match self {
            CabSignallingAspect1::Danger => 0,
            CabSignallingAspect1::Caution => 1,
            CabSignallingAspect1::PreliminaryCaution => 2,
            CabSignallingAspect1::Proceed => 3,
            CabSignallingAspect1::CallOn => 4,
            CabSignallingAspect1::Theatre => 8,
        }
    }

    fn try_from_code(code: u8) -> (r: Result<Self, UndefinedCode>) {
        assert(Self::space() == CodeSpace::CabSignallingAspect1);
        match code {
            0 => Ok(CabSignallingAspect1::Danger),
            1 => Ok(CabSignallingAspect1::Caution),
            2 => Ok(CabSignallingAspect1::PreliminaryCaution),
            3 => Ok(CabSignallingAspect1::Proceed),
            4 => Ok(CabSignallingAspect1::CallOn),
            8 => Ok(CabSignallingAspect1::Theatre),
            _ => Err(UndefinedCode { space: CodeSpace::CabSignallingAspect1, value: code }),
        }
    }
}

impl From<CabSignallingAspect1> for u8 {
    /// The wire byte of `value`.
    fn from(value: CabSignallingAspect1) -> (c: u8) {
        value.to_code()
    }
}

impl vstd::std_specs::convert::FromSpecImpl<CabSignallingAspect1> for u8 {
    open spec fn obeys_from_spec() -> bool {
        true
    }

    open spec fn from_spec(value: CabSignallingAspect1) -> u8 {
        value.code()
    }
}

impl TryFrom<u8> for CabSignallingAspect1 {
    type Error = UndefinedCode;

    /// The checked conversion of `code`.
    fn try_from(code: u8) -> (r: Result<CabSignallingAspect1, UndefinedCode>) {
        CabSignallingAspect1::try_from_code(code)
    }
}

impl vstd::std_specs::convert::TryFromSpecImpl<u8> for CabSignallingAspect1 {
    open spec fn obeys_try_from_spec() -> bool {
        true
    }

    open spec fn try_from_spec(code: u8) -> Result<CabSignallingAspect1, UndefinedCode> {
        checked::<CabSignallingAspect1>(code)
    }
}

/// The kinds of data that can be sent to a cab; the kind gives the meaning of
/// the three bytes that follow it.
#[derive(Debug, Clone, Copy, PartialEq, Eq, Structural)]
pub enum CabDataCode {
    /// Signal aspects to be shown on a cab handset as cab signalling
    CabSignalling,
}

impl TypedIdentifier for CabDataCode {
    open spec fn code(self) -> u8 {
        match self {
            CabDataCode::CabSignalling => 1,
        }
    }

    open spec fn decode(code: u8) -> Option<Self> {
        match code {
            1 => Some(CabDataCode::CabSignalling),
            _ => None,
        }
    }

    open spec fn space() -> CodeSpace {
        CodeSpace::CabDataCode
    }

    proof fn lemma_decode_inverts_code(i: Self, code: u8) {
    }
}

impl CodeRegistry for CabDataCode {
    fn to_code(self) -> (c: u8) {
        match self {
            CabDataCode::CabSignalling => 1,
        }
    }

    fn try_from_code(code: u8) -> (r: Result<Self, UndefinedCode>) {
        assert(Self::space() == CodeSpace::CabDataCode);
        match code {
            1 => Ok(CabDataCode::CabSignalling),
            _ => Err(UndefinedCode { space: CodeSpace::CabDataCode, value: code }),
        }
    }
}

impl From<CabDataCode> for u8 {
    /// The wire byte of `value`.
    fn from(value: CabDataCode) -> (c: u8) {
        value.to_code()
    }
}

impl vstd::std_specs::convert::FromSpecImpl<CabDataCode> for u8 {
    open spec fn obeys_from_spec() -> bool {
        true
    }

    open spec fn from_spec(value: CabDataCode) -> u8 {
        value.code()
    }
}

impl TryFrom<u8> for CabDataCode {
    type Error = UndefinedCode;

    /// The checked conversion of `code`.
    fn try_from(code: u8) -> (r: Result<CabDataCode, UndefinedCode>) {
        CabDataCode::try_from_code(code)
    }
}

impl vstd::std_specs::convert::TryFromSpecImpl<u8> for CabDataCode {
    open spec fn obeys_try_from_spec() -> bool {
        true
    }

    open spec fn try_from_spec(code: u8) -> Result<CabDataCode, UndefinedCode> {
        checked::<CabDataCode>(code)
    }
}

} // verus!
