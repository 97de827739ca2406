//! Services, operating modes and the codes of configuration responses.

use vstd::prelude::*;
use crate::error::CodeSpace;
use crate::error::UndefinedCode;
use crate::registry::CodeRegistry;
use crate::registry::TypedIdentifier;
use crate::registry::checked;

verus! {

/// The services that a module can offer and announce in service discovery.
#[derive(Debug, Clone, Copy, PartialEq, Eq, Structural)]
pub enum ServiceType {
    /// Internal service.
    Internal,
    /// The minimum node service.
    MinimumNodeService,
    /// The NV service.
    NodeVariable,
    /// CAN service.
    CanBus,
    /// Old (CBUS) event teaching service.
    LegacyEventTeaching,
    /// Event producer service.
    EventProducer,
    /// Event consumer service.
    EventConsumer,
    /// New event teaching service.
    EventTeaching,
    /// Consume own events service.
    ConsumeOwnEvents,
    /// Event acknowledge service.
    EventAcknowledge,
    /// FCU/PIC bootloader service.
    Bootloader,
    /// Streaming (Long Messages) service.
    Streaming,
}

impl TypedIdentifier for ServiceType {
    open spec fn code(self) -> u8 {
        match self {
            ServiceType::Internal => 0,
            ServiceType::MinimumNodeService => 1,
            ServiceType::NodeVariable => 2,
            ServiceType::CanBus => 3,
            ServiceType::LegacyEventTeaching => 4,
            ServiceType::EventProducer => 5,
            ServiceType::EventConsumer => 6,
            ServiceType::EventTeaching => 7,
            ServiceType::ConsumeOwnEvents => 8,
            ServiceType::EventAcknowledge => 9,
            ServiceType::Bootloader => 10,
            ServiceType::Streaming => 17,
        }
    }

    open spec fn decode(code: u8) -> Option<Self> {
        match code {
            0 => Some(ServiceType::Internal),
            1 => Some(ServiceType::MinimumNodeService),
            2 => Some(ServiceType::NodeVariable),
            3 => Some(ServiceType::CanBus),
            4 => Some(ServiceType::LegacyEventTeaching),
            5 => Some(ServiceType::EventProducer),
            6 => Some(ServiceType::EventConsumer),
            7 => Some(ServiceType::EventTeaching),
            8 => Some(ServiceType::ConsumeOwnEvents),
            9 => Some(ServiceType::EventAcknowledge),
            10 => Some(ServiceType::Bootloader),
            17 => Some(ServiceType::Streaming),
            _ => None,
        }
    }

    open spec fn space() -> CodeSpace {
        CodeSpace::ServiceType
    }

    proof fn lemma_decode_inverts_code(i: Self, code: u8) {
    }
}

impl CodeRegistry for ServiceType {
    fn to_code(self) -> (c: u8) {
        match self {
            ServiceType::Internal => 0,
            ServiceType::MinimumNodeService => 1,
            ServiceType::NodeVariable => 2,
            ServiceType::CanBus => 3,
            ServiceType::LegacyEventTeaching => 4,
            ServiceType::EventProducer => 5,
            ServiceType::EventConsumer => 6,
            ServiceType::EventTeaching => 7,
            ServiceType::ConsumeOwnEvents => 8,
            ServiceType::EventAcknowledge => 9,
            ServiceType::Bootloader => 10,
            ServiceType::Streaming => 17,
        }
    }

    fn try_from_code(code: u8) -> (r: Result<Self, UndefinedCode>) {
        assert(Self::space() == CodeSpace::ServiceType);
        match code {
            0 => Ok(ServiceType::Internal),
            1 => Ok(ServiceType::MinimumNodeService),
            2 => Ok(ServiceType::NodeVariable),
            3 => Ok(ServiceType::CanBus),
            4 => Ok(ServiceType::LegacyEventTeaching),
            5 => Ok(ServiceType::EventProducer),
            6 => Ok(ServiceType::EventConsumer),
            7 => Ok(ServiceType::EventTeaching),
            8 => Ok(ServiceType::ConsumeOwnEvents),
            9 => Ok(ServiceType::EventAcknowledge),
            10 => Ok(ServiceType::Bootloader),
            17 => Ok(ServiceType::Streaming),
            _ => Err(UndefinedCode { space: CodeSpace::ServiceType, value: code }),
        }
    }
}

impl From<ServiceType> for u8 {
    /// The wire byte of `value`.
    fn from(value: ServiceType) -> (c: u8) {
        value.to_code()
    }
}

impl vstd::std_specs::convert::FromSpecImpl<ServiceType> for u8 {
    open spec fn obeys_from_spec() -> bool {
        true
    }

    open spec fn from_spec(value: ServiceType) -> u8 {
        value.code()
    }
}

impl TryFrom<u8> for ServiceType {
    type Error = UndefinedCode;

    /// The checked conversion of `code`.
    fn try_from(code: u8) -> (r: Result<ServiceType, UndefinedCode>) {
        ServiceType::try_from_code(code)
    }
}

impl vstd::std_specs::convert::TryFromSpecImpl<u8> for ServiceType {
    open spec fn obeys_try_from_spec() -> bool {
        true
    }

    open spec fn try_from_spec(code: u8) -> Result<ServiceType, UndefinedCode> {
        checked::<ServiceType>(code)
    }
}

/// The operating modes that a mode request can ask a module to enter.
///
/// The modes exclude each other.
#[derive(Debug, Clone, Copy, PartialEq, Eq, Structural)]
pub enum ModuleMode {
    /// Uninitialized / factory settings
    Uninitialized,
    /// Set up mode
    InSetup,
    /// Normal operation mode
    Normal,
    /// Turn on learn mode
    EnableLearnMode,
    /// Turn off learn mode
    DisableLearnMode,
    /// Turn on event acknowledgements
    EnableEventAck,
    /// Turn off event acknowledgements
    DisableEventAck,
    /// Turn on heartbeat
    EnableHeartbeat,
    /// Turn off heartbeat
    DisableHeartbeat,
    /// PIC Boot loader mode
    Bootloader,
}

impl TypedIdentifier for ModuleMode {
    open spec fn code(self) -> u8 {
        match self {
            ModuleMode::Uninitialized => 255,
            ModuleMode::InSetup => 0,
            ModuleMode::Normal => 1,
            ModuleMode::EnableLearnMode => 8,
            ModuleMode::DisableLearnMode => 9,
            ModuleMode::EnableEventAck => 10,
            ModuleMode::DisableEventAck => 11,
            ModuleMode::EnableHeartbeat => 12,
            ModuleMode::DisableHeartbeat => 13,
            ModuleMode::Bootloader => 14,
        }
    }

    open spec fn decode(code: u8) -> Option<Self> {
        match code {
            0 => Some(ModuleMode::InSetup),
            1 => Some(ModuleMode::Normal),
            8 => Some(ModuleMode::EnableLearnMode),
            9 => Some(ModuleMode::DisableLearnMode),
            10 => Some(ModuleMode::EnableEventAck),
            11 => Some(ModuleMode::DisableEventAck),
            12 => Some(ModuleMode::EnableHeartbeat),
            13 => Some(ModuleMode::DisableHeartbeat),
            14 => Some(ModuleMode::Bootloader),
            255 => Some(ModuleMode::Uninitialized),
            _ => None,
        }
    }

    open spec fn space() -> CodeSpace {
        CodeSpace::ModuleMode
    }

    proof fn lemma_decode_inverts_code(i: Self, code: u8) {
    }
}

impl CodeRegistry for ModuleMode {
    fn to_code(self) -> (c: u8) {
        match self {
            ModuleMode::Uninitialized => 255,
            ModuleMode::InSetup => 0,
            ModuleMode::Normal => 1,
            ModuleMode::EnableLearnMode => 8,
            ModuleMode::DisableLearnMode => 9,
            ModuleMode::EnableEventAck => 10,
            ModuleMode::DisableEventAck => 11,
            ModuleMode::EnableHeartbeat => 12,
            ModuleMode::DisableHeartbeat => 13,
            ModuleMode::Bootloader => 14,
        }
    }

    fn try_from_code(code: u8) -> (r: Result<Self, UndefinedCode>) {
        assert(Self::space() == CodeSpace::ModuleMode);
        match code {
            0 => Ok(ModuleMode::InSetup),
            1 => Ok(ModuleMode::Normal),
            8 => Ok(ModuleMode::EnableLearnMode),
            9 => Ok(ModuleMode::DisableLearnMode),
            10 => Ok(ModuleMode::EnableEventAck),
            11 => Ok(ModuleMode::DisableEventAck),
            12 => Ok(ModuleMode::EnableHeartbeat),
            13 => Ok(ModuleMode::DisableHeartbeat),
            14 => Ok(ModuleMode::Bootloader),
            255 => Ok(ModuleMode::Uninitialized),
            _ => Err(UndefinedCode { space: CodeSpace::ModuleMode, value: code }),
        }
    }
}

impl From<ModuleMode> for u8 {
    /// The wire byte of `value`.
    fn from(value: ModuleMode) -> (c: u8) {
        value.to_code()
    }
}

impl vstd::std_specs::convert::FromSpecImpl<ModuleMode> for u8 {
    open spec fn obeys_from_spec() -> bool {
        true
    }

    open spec fn from_spec(value: ModuleMode) -> u8 {
        value.code()
    }
}

/// The result codes of a generic response, beside the command error codes.
#[derive(Debug, Clone, Copy, PartialEq, Eq, Structural)]
pub enum GenericResponseStatus {
    /// Success
    Success,
    /// Unknown non volatile memory type
    UnknownPersistentMemoryType,
    /// Invalid diagnostic
    InvalidDiagnostic,
    /// Invalid service
    InvalidService,
    /// Invalid parameter in command
    InvalidCommandParameter,
    /// Invalid Mode
    InvalidMode,
}

impl TypedIdentifier for GenericResponseStatus {
    open spec fn code(self) -> u8 {
        match self {
            GenericResponseStatus::Success => 0,
            GenericResponseStatus::UnknownPersistentMemoryType => 254,
            GenericResponseStatus::InvalidDiagnostic => 253,
            GenericResponseStatus::InvalidService => 252,
            GenericResponseStatus::InvalidCommandParameter => 251,
            GenericResponseStatus::InvalidMode => 250,
        }
    }

    open spec fn decode(code: u8) -> Option<Self> {
        match code {
            0 => Some(GenericResponseStatus::Success),
            250 => Some(GenericResponseStatus::InvalidMode),
            251 => Some(GenericResponseStatus::InvalidCommandParameter),
            252 => Some(GenericResponseStatus::InvalidService),
            253 => Some(GenericResponseStatus::InvalidDiagnostic),
            254 => Some(GenericResponseStatus::UnknownPersistentMemoryType),
            _ => None,
        }
    }

    open spec fn space() -> CodeSpace {
        CodeSpace::GenericResponseStatus
    }

    proof fn lemma_decode_inverts_code(i: Self, code: u8) {
    }
}

impl CodeRegistry for GenericResponseStatus {
    fn to_code(self) -> (c: u8) {
        match self {
            GenericResponseStatus::Success => 0,
            GenericResponseStatus::UnknownPersistentMemoryType => 254,
            GenericResponseStatus::InvalidDiagnostic => 253,
            GenericResponseStatus::InvalidService => 252,
            GenericResponseStatus::InvalidCommandParameter => 251,
            GenericResponseStatus::InvalidMode => 250,
        }
    }

    fn try_from_code(code: u8) -> (r: Result<Self, UndefinedCode>) {
        assert(Self::space() == CodeSpace::GenericResponseStatus);
        match code {
            0 => Ok(GenericResponseStatus::Success),
            250 => Ok(GenericResponseStatus::InvalidMode),
            251 => Ok(GenericResponseStatus::InvalidCommandParameter),
            252 => Ok(GenericResponseStatus::InvalidService),
            253 => Ok(GenericResponseStatus::InvalidDiagnostic),
            254 => Ok(GenericResponseStatus::UnknownPersistentMemoryType),
            _ => Err(UndefinedCode { space: CodeSpace::GenericResponseStatus, value: code }),
        }
    }
}

impl From<GenericResponseStatus> for u8 {
    /// The wire byte of `value`.
    fn from(value: GenericResponseStatus) -> (c: u8) {
        value.to_code()
    }
}

impl vstd::std_specs::convert::FromSpecImpl<GenericResponseStatus> for u8 {
    open spec fn obeys_from_spec() -> bool {
        true
    }

    open spec fn from_spec(value: GenericResponseStatus) -> u8 {
        value.code()
    }
}

impl TryFrom<u8> for GenericResponseStatus {
    type Error = UndefinedCode;

    /// The checked conversion of `code`.
    fn try_from(code: u8) -> (r: Result<GenericResponseStatus, UndefinedCode>) {
        GenericResponseStatus::try_from_code(code)
    }
}

impl vstd::std_specs::convert::TryFromSpecImpl<u8> for GenericResponseStatus {
    open spec fn obeys_try_from_spec() -> bool {
        true
    }

    open spec fn try_from_spec(code: u8) -> Result<GenericResponseStatus, UndefinedCode> {
        checked::<GenericResponseStatus>(code)
    }
}

/// The error codes that a node reports while it is being configured.
#[derive(Debug, Clone, Copy, PartialEq, Eq, Structural)]
pub enum CommandError {
    /// Invalid command
    InvalidCommand,
    /// The mode is not currently in learn mode
    NotInLearnMode,
    /// The mode is not currently in setup mode
    NotInSetupMode,
    /// Too many events provisioned in module
    TooManyEvents,
    /// No Event-Variable
    NoEv,
    /// Invalid EV index
    InvalidEvIndex,
    /// Invalid event
    InvalidEvent,
    /// Invalid event index
    InvalidEventIndex,
    /// Invalid param index
    InvalidParamIndex,
    /// Invalid NV index
    InvalidNvIndex,
    /// Invalid EV value
    InvalidEvValue,
    /// Invalid NV value
    InvalidNvValue,
    /// Another module is already in learn mode
    AnotherModuleIsInLearnMode,
}

impl TypedIdentifier for CommandError {
    open spec fn code(self) -> u8 {
        match self {
            CommandError::InvalidCommand => 1,
            CommandError::NotInLearnMode => 2,
            CommandError::NotInSetupMode => 3,
            CommandError::TooManyEvents => 4,
            CommandError::NoEv => 5,
            CommandError::InvalidEvIndex => 6,
            CommandError::InvalidEvent => 7,
            CommandError::InvalidEventIndex => 8,
            CommandError::InvalidParamIndex => 9,
            CommandError::InvalidNvIndex => 10,
            CommandError::InvalidEvValue => 11,
            CommandError::InvalidNvValue => 12,
            CommandError::AnotherModuleIsInLearnMode => 13,
        }
    }

    open spec fn decode(code: u8) -> Option<Self> {
        match code {
            1 => Some(CommandError::InvalidCommand),
            2 => Some(CommandError::NotInLearnMode),
            3 => Some(CommandError::NotInSetupMode),
            4 => Some(CommandError::TooManyEvents),
            5 => Some(CommandError::NoEv),
            6 => Some(CommandError::InvalidEvIndex),
            7 => Some(CommandError::InvalidEvent),
            8 => Some(CommandError::InvalidEventIndex),
            9 => Some(CommandError::InvalidParamIndex),
            10 => Some(CommandError::InvalidNvIndex),
            11 => Some(CommandError::InvalidEvValue),
            12 => Some(CommandError::InvalidNvValue),
            13 => Some(CommandError::AnotherModuleIsInLearnMode),
            _ => None,
        }
    }

    open spec fn space() -> CodeSpace {
        CodeSpace::CommandError
    }

    proof fn lemma_decode_inverts_code(i: Self, code: u8) {
    }
}

impl CodeRegistry for CommandError {
    fn to_code(self) -> (c: u8) {
        match self {
            CommandError::InvalidCommand => 1,
            CommandError::NotInLearnMode => 2,
            CommandError::NotInSetupMode => 3,
            CommandError::TooManyEvents => 4,
            CommandError::NoEv => 5,
            CommandError::InvalidEvIndex => 6,
            CommandError::InvalidEvent => 7,
            CommandError::InvalidEventIndex => 8,
            CommandError::InvalidParamIndex => 9,
            CommandError::InvalidNvIndex => 10,
            CommandError::InvalidEvValue => 11,
            CommandError::InvalidNvValue => 12,
            CommandError::AnotherModuleIsInLearnMode => 13,
        }
    }

    fn try_from_code(code: u8) -> (r: Result<Self, UndefinedCode>) {
        assert(Self::space() == CodeSpace::CommandError);
        match code {
            1 => Ok(CommandError::InvalidCommand),
            2 => Ok(CommandError::NotInLearnMode),
            3 => Ok(CommandError::NotInSetupMode),
            4 => Ok(CommandError::TooManyEvents),
            5 => Ok(CommandError::NoEv),
            6 => Ok(CommandError::InvalidEvIndex),
            7 => Ok(CommandError::InvalidEvent),
            8 => Ok(CommandError::InvalidEventIndex),
            9 => Ok(CommandError::InvalidParamIndex),
            10 => Ok(CommandError::InvalidNvIndex),
            11 => Ok(CommandError::InvalidEvValue),
            12 => Ok(CommandError::InvalidNvValue),
            13 => Ok(CommandError::AnotherModuleIsInLearnMode),
            _ => Err(UndefinedCode { space: CodeSpace::CommandError, value: code }),
        }
    }
}

impl From<CommandError> for u8 {
    /// The wire byte of `value`.
    fn from(value: CommandError) -> (c: u8) {
        value.to_code()
    }
}

impl vstd::std_specs::convert::FromSpecImpl<CommandError> for u8 {
    open spec fn obeys_from_spec() -> bool {
        true
    }

    open spec fn from_spec(value: CommandError) -> u8 {
        value.code()
    }
}

impl TryFrom<u8> for CommandError {
    type Error = UndefinedCode;

    /// The checked conversion of `code`.
    fn try_from(code: u8) -> (r: Result<CommandError, UndefinedCode>) {
        CommandError::try_from_code(code)
    }
}

impl vstd::std_specs::convert::TryFromSpecImpl<u8> for CommandError {
    open spec fn obeys_try_from_spec() -> bool {
        true
    }

    open spec fn try_from_spec(code: u8) -> Result<CommandError, UndefinedCode> {
        checked::<CommandError>(code)
    }
}

impl ModuleMode {
    /// The mode that `code` asks for. A byte that names no mode stands for
    /// `Uninitialized`.
    pub open spec fn of(code: u8) -> ModuleMode {
        match ModuleMode::decode(code) {
            Some(m) => m,
            None => ModuleMode::Uninitialized,
        }
    }

    /// The mode that `code` asks for; this conversion has no error.
    pub fn from_code(code: u8) -> (m: ModuleMode)
        ensures
            m == Self::of(code),
    {
        match Self::try_from_code(code) {
            Ok(m) => m,
            Err(_) => ModuleMode::Uninitialized,
        }
    }
}

impl From<u8> for ModuleMode {
    /// The mode that `code` asks for, `Uninitialized` where it names none.
    fn from(code: u8) -> (m: ModuleMode) {
        ModuleMode::from_code(code)
    }
}

impl vstd::std_specs::convert::FromSpecImpl<u8> for ModuleMode {
    open spec fn obeys_from_spec() -> bool {
        true
    }

    open spec fn from_spec(code: u8) -> ModuleMode {
        ModuleMode::of(code)
    }
}

} // verus!
