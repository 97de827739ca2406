//! Processor manufacturers and the processor codes of each.

use vstd::prelude::*;
use crate::error::CodeSpace;
use crate::error::UndefinedCode;
use crate::registry::CodeRegistry;
use crate::registry::TypedIdentifier;
use crate::registry::checked;

verus! {

/// The processor manufacturers.
#[derive(Debug, Clone, Copy, PartialEq, Eq, Structural)]
pub enum ProcessorManufacturer {
    Microchip,
    Atmel,
    Arm,
}

impl TypedIdentifier for ProcessorManufacturer {
    open spec fn code(self) -> u8 {
        match self {
            ProcessorManufacturer::Microchip => 1,
            ProcessorManufacturer::Atmel => 2,
            ProcessorManufacturer::Arm => 3,
        }
    }

    open spec fn decode(code: u8) -> Option<Self> {
        match code {
            1 => Some(ProcessorManufacturer::Microchip),
            2 => Some(ProcessorManufacturer::Atmel),
            3 => Some(ProcessorManufacturer::Arm),
            _ => None,
        }
    }

    open spec fn space() -> CodeSpace {
        CodeSpace::ProcessorManufacturer
    }

    proof fn lemma_decode_inverts_code(i: Self, code: u8) {
    }
}

impl CodeRegistry for ProcessorManufacturer {
    fn to_code(self) -> (c: u8) {
        match self {
            ProcessorManufacturer::Microchip => 1,
            ProcessorManufacturer::Atmel => 2,
            ProcessorManufacturer::Arm => 3,
        }
    }

    fn try_from_code(code: u8) -> (r: Result<Self, UndefinedCode>) {
        assert(Self::space() == CodeSpace::ProcessorManufacturer);
        match code {
            1 => Ok(ProcessorManufacturer::Microchip),
            2 => Ok(ProcessorManufacturer::Atmel),
            3 => Ok(ProcessorManufacturer::Arm),
            _ => Err(UndefinedCode { space: CodeSpace::ProcessorManufacturer, value: code }),
        }
    }
}

impl From<ProcessorManufacturer> for u8 {
    /// The wire byte of `value`.
    fn from(value: ProcessorManufacturer) -> (c: u8) {
        value.to_code()
    }
}

impl vstd::std_specs::convert::FromSpecImpl<ProcessorManufacturer> for u8 {
    open spec fn obeys_from_spec() -> bool {
        true
    }

    open spec fn from_spec(value: ProcessorManufacturer) -> u8 {
        value.code()
    }
}

impl TryFrom<u8> for ProcessorManufacturer {
    type Error = UndefinedCode;

    /// The checked conversion of `code`.
    fn try_from(code: u8) -> (r: Result<ProcessorManufacturer, UndefinedCode>) {
        ProcessorManufacturer::try_from_code(code)
    }
}

impl vstd::std_specs::convert::TryFromSpecImpl<u8> for ProcessorManufacturer {
    open spec fn obeys_try_from_spec() -> bool {
        true
    }

    open spec fn try_from_spec(code: u8) -> Result<ProcessorManufacturer, UndefinedCode> {
        checked::<ProcessorManufacturer>(code)
    }
}

/// The processor codes of Microchip, by which a loader picks a compatible
/// bootloader.
#[allow(non_camel_case_types)]
#[derive(Debug, Clone, Copy, PartialEq, Eq, Structural)]
pub enum MicrochipProcessor {
    P18F2480,
    P18F4480,
    P18F2580,
    P18F4580,
    P18F2585,
    P18F4585,
    P18F2680,
    P18F4680,
    P18F2682,
    P18F4682,
    P18F2685,
    P18F4685,
    P18F25K80,
    P18F45K80,
    P18F26K80,
    P18F46K80,
    P18F65K80,
    P18F66K80,
    P18F25K83,
    P18F26K83,
    P18F27Q84,
    P18F47Q84,
    P18F27Q83,
    P18F14K22,
    P32MX534F064,
    P32MX564F064,
    P32MX564F128,
    P32MX575F256,
    P32MX575F512,
    P32MX764F128,
    P32MX775F256,
    P32MX775F512,
    P32MX795F512,
}

impl TypedIdentifier for MicrochipProcessor {
    open spec fn code(self) -> u8 {
        match self {
            MicrochipProcessor::P18F2480 => 1,
            MicrochipProcessor::P18F4480 => 2,
            MicrochipProcessor::P18F2580 => 3,
            MicrochipProcessor::P18F4580 => 4,
            MicrochipProcessor::P18F2585 => 5,
            MicrochipProcessor::P18F4585 => 6,
            MicrochipProcessor::P18F2680 => 7,
            MicrochipProcessor::P18F4680 => 8,
            MicrochipProcessor::P18F2682 => 9,
            MicrochipProcessor::P18F4682 => 10,
            MicrochipProcessor::P18F2685 => 11,
            MicrochipProcessor::P18F4685 => 12,
            MicrochipProcessor::P18F25K80 => 13,
            MicrochipProcessor::P18F45K80 => 14,
            MicrochipProcessor::P18F26K80 => 15,
            MicrochipProcessor::P18F46K80 => 16,
            MicrochipProcessor::P18F65K80 => 17,
            MicrochipProcessor::P18F66K80 => 18,
            MicrochipProcessor::P18F25K83 => 19,
            MicrochipProcessor::P18F26K83 => 20,
            MicrochipProcessor::P18F27Q84 => 21,
            MicrochipProcessor::P18F47Q84 => 22,
            MicrochipProcessor::P18F27Q83 => 23,
            MicrochipProcessor::P18F14K22 => 25,
            MicrochipProcessor::P32MX534F064 => 30,
            MicrochipProcessor::P32MX564F064 => 31,
            MicrochipProcessor::P32MX564F128 => 32,
            MicrochipProcessor::P32MX575F256 => 33,
            MicrochipProcessor::P32MX575F512 => 34,
            MicrochipProcessor::P32MX764F128 => 35,
            MicrochipProcessor::P32MX775F256 => 36,
            MicrochipProcessor::P32MX775F512 => 37,
            MicrochipProcessor::P32MX795F512 => 38,
        }
    }

    open spec fn decode(code: u8) -> Option<Self> {
        match code {
            1 => Some(MicrochipProcessor::P18F2480),
            2 => Some(MicrochipProcessor::P18F4480),
            3 => Some(MicrochipProcessor::P18F2580),
            4 => Some(MicrochipProcessor::P18F4580),
            5 => Some(MicrochipProcessor::P18F2585),
            6 => Some(MicrochipProcessor::P18F4585),
            7 => Some(MicrochipProcessor::P18F2680),
            8 => Some(MicrochipProcessor::P18F4680),
            9 => Some(MicrochipProcessor::P18F2682),
            10 => Some(MicrochipProcessor::P18F4682),
            11 => Some(MicrochipProcessor::P18F2685),
            12 => Some(MicrochipProcessor::P18F4685),
            13 => Some(MicrochipProcessor::P18F25K80),
            14 => Some(MicrochipProcessor::P18F45K80),
            15 => Some(MicrochipProcessor::P18F26K80),
            16 => Some(MicrochipProcessor::P18F46K80),
            17 => Some(MicrochipProcessor::P18F65K80),
            18 => Some(MicrochipProcessor::P18F66K80),
            19 => Some(MicrochipProcessor::P18F25K83),
            20 => Some(MicrochipProcessor::P18F26K83),
            21 => Some(MicrochipProcessor::P18F27Q84),
            22 => Some(MicrochipProcessor::P18F47Q84),
            23 => Some(MicrochipProcessor::P18F27Q83),
            25 => Some(MicrochipProcessor::P18F14K22),
            30 => Some(MicrochipProcessor::P32MX534F064),
            31 => Some(MicrochipProcessor::P32MX564F064),
            32 => Some(MicrochipProcessor::P32MX564F128),
            33 => Some(MicrochipProcessor::P32MX575F256),
            34 => Some(MicrochipProcessor::P32MX575F512),
            35 => Some(MicrochipProcessor::P32MX764F128),
            36 => Some(MicrochipProcessor::P32MX775F256),
            37 => Some(MicrochipProcessor::P32MX775F512),
            38 => Some(MicrochipProcessor::P32MX795F512),
            _ => None,
        }
    }

    open spec fn space() -> CodeSpace {
        CodeSpace::MicrochipProcessor
    }

    proof fn lemma_decode_inverts_code(i: Self, code: u8) {
    }
}

impl CodeRegistry for MicrochipProcessor {
    fn to_code(self) -> (c: u8) {
        match self {
            MicrochipProcessor::P18F2480 => 1,
            MicrochipProcessor::P18F4480 => 2,
            MicrochipProcessor::P18F2580 => 3,
            MicrochipProcessor::P18F4580 => 4,
            MicrochipProcessor::P18F2585 => 5,
            MicrochipProcessor::P18F4585 => 6,
            MicrochipProcessor::P18F2680 => 7,
            MicrochipProcessor::P18F4680 => 8,
            MicrochipProcessor::P18F2682 => 9,
            MicrochipProcessor::P18F4682 => 10,
            MicrochipProcessor::P18F2685 => 11,
            MicrochipProcessor::P18F4685 => 12,
            MicrochipProcessor::P18F25K80 => 13,
            MicrochipProcessor::P18F45K80 => 14,
            MicrochipProcessor::P18F26K80 => 15,
            MicrochipProcessor::P18F46K80 => 16,
            MicrochipProcessor::P18F65K80 => 17,
            MicrochipProcessor::P18F66K80 => 18,
            MicrochipProcessor::P18F25K83 => 19,
            MicrochipProcessor::P18F26K83 => 20,
            MicrochipProcessor::P18F27Q84 => 21,
            MicrochipProcessor::P18F47Q84 => 22,
            MicrochipProcessor::P18F27Q83 => 23,
            MicrochipProcessor::P18F14K22 => 25,
            MicrochipProcessor::P32MX534F064 => 30,
            MicrochipProcessor::P32MX564F064 => 31,
            MicrochipProcessor::P32MX564F128 => 32,
            MicrochipProcessor::P32MX575F256 => 33,
            MicrochipProcessor::P32MX575F512 => 34,
            MicrochipProcessor::P32MX764F128 => 35,
            MicrochipProcessor::P32MX775F256 => 36,
            MicrochipProcessor::P32MX775F512 => 37,
            MicrochipProcessor::P32MX795F512 => 38,
        }
    }

    fn try_from_code(code: u8) -> (r: Result<Self, UndefinedCode>) {
        assert(Self::space() == CodeSpace::MicrochipProcessor);
        match code {
            1 => Ok(MicrochipProcessor::P18F2480),
            2 => Ok(MicrochipProcessor::P18F4480),
            3 => Ok(MicrochipProcessor::P18F2580),
            4 => Ok(MicrochipProcessor::P18F4580),
            5 => Ok(MicrochipProcessor::P18F2585),
            6 => Ok(MicrochipProcessor::P18F4585),
            7 => Ok(MicrochipProcessor::P18F2680),
            8 => Ok(MicrochipProcessor::P18F4680),
            9 => Ok(MicrochipProcessor::P18F2682),
            10 => Ok(MicrochipProcessor::P18F4682),
            11 => Ok(MicrochipProcessor::P18F2685),
            12 => Ok(MicrochipProcessor::P18F4685),
            13 => Ok(MicrochipProcessor::P18F25K80),
            14 => Ok(MicrochipProcessor::P18F45K80),
            15 => Ok(MicrochipProcessor::P18F26K80),
            16 => Ok(MicrochipProcessor::P18F46K80),
            17 => Ok(MicrochipProcessor::P18F65K80),
            18 => Ok(MicrochipProcessor::P18F66K80),
            19 => Ok(MicrochipProcessor::P18F25K83),
            20 => Ok(MicrochipProcessor::P18F26K83),
            21 => Ok(MicrochipProcessor::P18F27Q84),
            22 => Ok(MicrochipProcessor::P18F47Q84),
            23 => Ok(MicrochipProcessor::P18F27Q83),
            25 => Ok(MicrochipProcessor::P18F14K22),
            30 => Ok(MicrochipProcessor::P32MX534F064),
            31 => Ok(MicrochipProcessor::P32MX564F064),
            32 => Ok(MicrochipProcessor::P32MX564F128),
            33 => Ok(MicrochipProcessor::P32MX575F256),
            34 => Ok(MicrochipProcessor::P32MX575F512),
            35 => Ok(MicrochipProcessor::P32MX764F128),
            36 => Ok(MicrochipProcessor::P32MX775F256),
            37 => Ok(MicrochipProcessor::P32MX775F512),
            38 => Ok(MicrochipProcessor::P32MX795F512),
            _ => Err(UndefinedCode { space: CodeSpace::MicrochipProcessor, value: code }),
        }
    }
}

impl From<MicrochipProcessor> for u8 {
    /// The wire byte of `value`.
    fn from(value: MicrochipProcessor) -> (c: u8) {
        value.to_code()
    }
}

impl vstd::std_specs::convert::FromSpecImpl<MicrochipProcessor> for u8 {
    open spec fn obeys_from_spec() -> bool {
        true
    }

    open spec fn from_spec(value: MicrochipProcessor) -> u8 {
        value.code()
    }
}

impl TryFrom<u8> for MicrochipProcessor {
    type Error = UndefinedCode;

    /// The checked conversion of `code`.
    fn try_from(code: u8) -> (r: Result<MicrochipProcessor, UndefinedCode>) {
        MicrochipProcessor::try_from_code(code)
    }
}

impl vstd::std_specs::convert::TryFromSpecImpl<u8> for MicrochipProcessor {
    open spec fn obeys_try_from_spec() -> bool {
        true
    }

    open spec fn try_from_spec(code: u8) -> Result<MicrochipProcessor, UndefinedCode> {
        checked::<MicrochipProcessor>(code)
    }
}

/// The processor codes of ARM, by which a loader picks a compatible bootloader.
#[derive(Debug, Clone, Copy, PartialEq, Eq, Structural)]
pub enum ArmProcessor {
    Arm1176JzfS,
    CortexA7,
    CortexA53,
}

impl TypedIdentifier for ArmProcessor {
    open spec fn code(self) -> u8 {
        match self {
            ArmProcessor::Arm1176JzfS => 1,
            ArmProcessor::CortexA7 => 2,
            ArmProcessor::CortexA53 => 3,
        }
    }

    open spec fn decode(code: u8) -> Option<Self> {
        match code {
            1 => Some(ArmProcessor::Arm1176JzfS),
            2 => Some(ArmProcessor::CortexA7),
            3 => Some(ArmProcessor::CortexA53),
            _ => None,
        }
    }

    open spec fn space() -> CodeSpace {
        CodeSpace::ArmProcessor
    }

    proof fn lemma_decode_inverts_code(i: Self, code: u8) {
    }
}

impl CodeRegistry for ArmProcessor {
    fn to_code(self) -> (c: u8) {
        match self {
            ArmProcessor::Arm1176JzfS => 1,
            ArmProcessor::CortexA7 => 2,
            ArmProcessor::CortexA53 => 3,
        }
    }

    fn try_from_code(code: u8) -> (r: Result<Self, UndefinedCode>) {
        assert(Self::space() == CodeSpace::ArmProcessor);
        match code {
            1 => Ok(ArmProcessor::Arm1176JzfS),
            2 => Ok(ArmProcessor::CortexA7),
            3 => Ok(ArmProcessor::CortexA53),
            _ => Err(UndefinedCode { space: CodeSpace::ArmProcessor, value: code }),
        }
    }
}

impl From<ArmProcessor> for u8 {
    /// The wire byte of `value`.
    fn from(value: ArmProcessor) -> (c: u8) {
        value.to_code()
    }
}

impl vstd::std_specs::convert::FromSpecImpl<ArmProcessor> for u8 {
    open spec fn obeys_from_spec() -> bool {
        true
    }

    open spec fn from_spec(value: ArmProcessor) -> u8 {
        value.code()
    }
}

impl TryFrom<u8> for ArmProcessor {
    type Error = UndefinedCode;

    /// The checked conversion of `code`.
    fn try_from(code: u8) -> (r: Result<ArmProcessor, UndefinedCode>) {
        ArmProcessor::try_from_code(code)
    }
}

impl vstd::std_specs::convert::TryFromSpecImpl<u8> for ArmProcessor {
    open spec fn obeys_try_from_spec() -> bool {
        true
    }

    open spec fn try_from_spec(code: u8) -> Result<ArmProcessor, UndefinedCode> {
        checked::<ArmProcessor>(code)
    }
}

} // verus!
