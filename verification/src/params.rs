//! The layout of a module's parameter block and the bus types named in it.

use vstd::prelude::*;
use crate::error::CodeSpace;
use crate::error::UndefinedCode;
use crate::registry::CodeRegistry;
use crate::registry::TypedIdentifier;
use crate::registry::checked;

verus! {

/// The indices of the entries of a module's parameter block.
///
/// Index 0 holds the number of parameters; an entry of several bytes takes as
/// many indices as it has bytes.
#[derive(Debug, Clone, Copy, PartialEq, Eq, Structural)]
pub enum ModuleParams {
    /// Number of parameters
    ModuleParameterCount,
    /// Manufacturer id
    ModuleManufacturer,
    /// Minor version (single alphabetic character)
    MinorVersion,
    /// Module type code
    ModuleType,
    /// Number of events supported
    MaxEventCount,
    /// Event variables per event
    EventVariableCount,
    /// Number of Node variables
    NodeVariableCount,
    /// Major version (numeric)
    MajorVersion,
    /// Node flags
    NodeFlags,
    /// Processor type
    CpuId,
    /// Bus type
    BusType,
    /// load address, 4 bytes
    LoadAddress,
    /// CPU manufacturer's id as read from the chip at run time, 4 bytes (in no checksum)
    CpuManufacturerId,
    /// CPU manufacturer code
    CpuManufacturer,
    /// Beta revision (numeric), or 0 if release
    BetaVersion,
}

impl TypedIdentifier for ModuleParams {
    open spec fn code(self) -> u8 {
        match self {
            ModuleParams::ModuleParameterCount => 0,
            ModuleParams::ModuleManufacturer => 1,
            ModuleParams::MinorVersion => 2,
            ModuleParams::ModuleType => 3,
            ModuleParams::MaxEventCount => 4,
            ModuleParams::EventVariableCount => 5,
            ModuleParams::NodeVariableCount => 6,
            ModuleParams::MajorVersion => 7,
            ModuleParams::NodeFlags => 8,
            ModuleParams::CpuId => 9,
            ModuleParams::BusType => 10,
            ModuleParams::LoadAddress => 11,
            ModuleParams::CpuManufacturerId => 15,
            ModuleParams::CpuManufacturer => 19,
            ModuleParams::BetaVersion => 20,
        }
    }

    open spec fn decode(code: u8) -> Option<Self> {
        match code {
            0 => Some(ModuleParams::ModuleParameterCount),
            1 => Some(ModuleParams::ModuleManufacturer),
            2 => Some(ModuleParams::MinorVersion),
            3 => Some(ModuleParams::ModuleType),
            4 => Some(ModuleParams::MaxEventCount),
            5 => Some(ModuleParams::EventVariableCount),
            6 => Some(ModuleParams::NodeVariableCount),
            7 => Some(ModuleParams::MajorVersion),
            8 => Some(ModuleParams::NodeFlags),
            9 => Some(ModuleParams::CpuId),
            10 => Some(ModuleParams::BusType),
            11 => Some(ModuleParams::LoadAddress),
            15 => Some(ModuleParams::CpuManufacturerId),
            19 => Some(ModuleParams::CpuManufacturer),
            20 => Some(ModuleParams::BetaVersion),
            _ => None,
        }
    }

    open spec fn space() -> CodeSpace {
        CodeSpace::ModuleParams
    }

    proof fn lemma_decode_inverts_code(i: Self, code: u8) {
    }
}

impl CodeRegistry for ModuleParams {
    fn to_code(self) -> (c: u8) {
        match self {
            ModuleParams::ModuleParameterCount => 0,
            ModuleParams::ModuleManufacturer => 1,
            ModuleParams::MinorVersion => 2,
            ModuleParams::ModuleType => 3,
            ModuleParams::MaxEventCount => 4,
            ModuleParams::EventVariableCount => 5,
            ModuleParams::NodeVariableCount => 6,
            ModuleParams::MajorVersion => 7,
            ModuleParams::NodeFlags => 8,
            ModuleParams::CpuId => 9,
            ModuleParams::BusType => 10,
            ModuleParams::LoadAddress => 11,
            ModuleParams::CpuManufacturerId => 15,
            ModuleParams::CpuManufacturer => 19,
            ModuleParams::BetaVersion => 20,
        }
    }

    fn try_from_code(code: u8) -> (r: Result<Self, UndefinedCode>) {
        assert(Self::space() == CodeSpace::ModuleParams);
        match code {
            0 => Ok(ModuleParams::ModuleParameterCount),
            1 => Ok(ModuleParams::ModuleManufacturer),
            2 => Ok(ModuleParams::MinorVersion),
            3 => Ok(ModuleParams::ModuleType),
            4 => Ok(ModuleParams::MaxEventCount),
            5 => Ok(ModuleParams::EventVariableCount),
            6 => Ok(ModuleParams::NodeVariableCount),
            7 => Ok(ModuleParams::MajorVersion),
            8 => Ok(ModuleParams::NodeFlags),
            9 => Ok(ModuleParams::CpuId),
            10 => Ok(ModuleParams::BusType),
            11 => Ok(ModuleParams::LoadAddress),
            15 => Ok(ModuleParams::CpuManufacturerId),
            19 => Ok(ModuleParams::CpuManufacturer),
            20 => Ok(ModuleParams::BetaVersion),
            _ => Err(UndefinedCode { space: CodeSpace::ModuleParams, value: code }),
        }
    }
}

impl From<ModuleParams> for u8 {
    /// The wire byte of `value`.
    fn from(value: ModuleParams) -> (c: u8) {
        value.to_code()
    }
}

impl vstd::std_specs::convert::FromSpecImpl<ModuleParams> for u8 {
    open spec fn obeys_from_spec() -> bool {
        true
    }

    open spec fn from_spec(value: ModuleParams) -> u8 {
        value.code()
    }
}

impl TryFrom<u8> for ModuleParams {
    type Error = UndefinedCode;

    /// The checked conversion of `code`.
    fn try_from(code: u8) -> (r: Result<ModuleParams, UndefinedCode>) {
        ModuleParams::try_from_code(code)
    }
}

impl vstd::std_specs::convert::TryFromSpecImpl<u8> for ModuleParams {
    open spec fn obeys_try_from_spec() -> bool {
        true
    }

    open spec fn try_from_spec(code: u8) -> Result<ModuleParams, UndefinedCode> {
        checked::<ModuleParams>(code)
    }
}

/// The bus that a module is connected to.
#[allow(non_camel_case_types)]
#[derive(Debug, Clone, Copy, PartialEq, Eq, Structural)]
pub enum BusType {
    /// CAN bus
    CAN,
    /// Ethernet
    Ethernet,
    /// MiWi wireless
    MiWi,
    /// USB
    USB,
}

impl TypedIdentifier for BusType {
    open spec fn code(self) -> u8 {
        match self {
            BusType::CAN => 1,
            BusType::Ethernet => 2,
            BusType::MiWi => 3,
            BusType::USB => 4,
        }
    }

    open spec fn decode(code: u8) -> Option<Self> {
        match code {
            1 => Some(BusType::CAN),
            2 => Some(BusType::Ethernet),
            3 => Some(BusType::MiWi),
            4 => Some(BusType::USB),
            _ => None,
        }
    }

    open spec fn space() -> CodeSpace {
        CodeSpace::BusType
    }

    proof fn lemma_decode_inverts_code(i: Self, code: u8) {
    }
}

impl CodeRegistry for BusType {
    fn to_code(self) -> (c: u8) {
        match self {
            BusType::CAN => 1,
            BusType::Ethernet => 2,
            BusType::MiWi => 3,
            BusType::USB => 4,
        }
    }

    fn try_from_code(code: u8) -> (r: Result<Self, UndefinedCode>) {
        assert(Self::space() == CodeSpace::BusType);
        match code {
            1 => Ok(BusType::CAN),
            2 => Ok(BusType::Ethernet),
            3 => Ok(BusType::MiWi),
            4 => Ok(BusType::USB),
            _ => Err(UndefinedCode { space: CodeSpace::BusType, value: code }),
        }
    }
}

impl From<BusType> for u8 {
    /// The wire byte of `value`.
    fn from(value: BusType) -> (c: u8) {
        value.to_code()
    }
}

impl vstd::std_specs::convert::FromSpecImpl<BusType> for u8 {
    open spec fn obeys_from_spec() -> bool {
        true
    }

    open spec fn from_spec(value: BusType) -> u8 {
        value.code()
    }
}

impl TryFrom<u8> for BusType {
    type Error = UndefinedCode;

    /// The checked conversion of `code`.
    fn try_from(code: u8) -> (r: Result<BusType, UndefinedCode>) {
        BusType::try_from_code(code)
    }
}

impl vstd::std_specs::convert::TryFromSpecImpl<u8> for BusType {
    open spec fn obeys_try_from_spec() -> bool {
        true
    }

    open spec fn try_from_spec(code: u8) -> Result<BusType, UndefinedCode> {
        checked::<BusType>(code)
    }
}

} // verus!
