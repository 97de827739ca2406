//! The processor that a module runs on.

use vstd::prelude::*;
use crate::cpu::ArmProcessor;
use crate::cpu::MicrochipProcessor;
use crate::cpu::ProcessorManufacturer;
use crate::error::CodeSpace;
use crate::error::UndefinedCode;
use crate::registry::CodeRegistry;
use crate::registry::TypedIdentifier;

verus! {

/// The manufacturer's own id of a processor, as read from the chip.
pub type CpuManufacturerId = [char; 4];

/// The processor of a module. Each processor manufacturer numbers its own
/// processors, so a processor id is read together with the manufacturer
/// byte beside it.
///
/// Many modules report no processor that is known here. That is an
/// ordinary case with an arm of its own, `Unknown`, which keeps both bytes
/// as they were read.
#[derive(Debug, Clone, Copy, PartialEq, Eq, Structural)]
pub enum Processor {
    /// A processor of ARM.
    Arm(ArmProcessor),
    /// A processor of Microchip.
    Microchip(MicrochipProcessor),
    /// Some processor of Atmel. Atmel's processors have no codes here, so
    /// this arm names the manufacturer alone and no byte decodes to it.
    Atmel,
    /// A processor id that no registry claims, with the manufacturer byte
    /// that came with it.
    Unknown { cpu_id: u8, manufacturer: u8 },
}

impl Processor {
    /// The processor id byte: that of the identifier held, by the
    /// identifier's own registry, or the byte carried. `Atmel`, which stands
    /// for no single processor, has the id 0, which no registry assigns.
    pub open spec fn code(self) -> u8 {
        match self {
            Processor::Arm(p) => p.code(),
            Processor::Microchip(p) => p.code(),
            Processor::Atmel => 0,
            Processor::Unknown { cpu_id, manufacturer } => cpu_id,
        }
    }

    /// The manufacturer byte that goes with the processor id.
    pub open spec fn manufacturer_code(self) -> u8 {
        match self {
            Processor::Arm(p) => ProcessorManufacturer::Arm.code(),
            Processor::Microchip(p) => ProcessorManufacturer::Microchip.code(),
            Processor::Atmel => ProcessorManufacturer::Atmel.code(),
            Processor::Unknown { cpu_id, manufacturer } => manufacturer,
        }
    }

    /// The code space in which `manufacturer` numbers its processors. For
    /// a manufacturer with no registry of its own it is
    /// `CodeSpace::Processor`, which defines no byte.
    pub open spec fn space_of(manufacturer: ProcessorManufacturer) -> CodeSpace {
        match manufacturer {
            ProcessorManufacturer::Microchip => CodeSpace::MicrochipProcessor,
            ProcessorManufacturer::Arm => CodeSpace::ArmProcessor,
            ProcessorManufacturer::Atmel => CodeSpace::Processor,
        }
    }

    /// The processor that `cpu_id` names in the registry of `manufacturer`,
    /// if that manufacturer has a registry and the registry defines `cpu_id`.
    pub open spec fn named(manufacturer: ProcessorManufacturer, cpu_id: u8) -> Option<Processor> {
        match manufacturer {
            ProcessorManufacturer::Microchip => match MicrochipProcessor::decode(cpu_id) {
                Some(p) => Some(Processor::Microchip(p)),
                None => None,
            },
            ProcessorManufacturer::Arm => match ArmProcessor::decode(cpu_id) {
                Some(p) => Some(Processor::Arm(p)),
                None => None,
            },
            ProcessorManufacturer::Atmel => None,
        }
    }

    /// The processor that `cpu_id` stands for under `manufacturer`: the
    /// named one where there is one, and else the two bytes themselves.
    pub open spec fn of(manufacturer: ProcessorManufacturer, cpu_id: u8) -> Processor {
        match Self::named(manufacturer, cpu_id) {
            Some(p) => p,
            None => Processor::Unknown { cpu_id, manufacturer: manufacturer.code() },
        }
    }

    /// The processor that `cpu_id` stands for under the manufacturer byte
    /// `manufacturer`. Under a byte that names no manufacturer it is the
    /// two bytes themselves.
    pub open spec fn of_raw(manufacturer: u8, cpu_id: u8) -> Processor {
        match ProcessorManufacturer::decode(manufacturer) {
            Some(m) => Self::of(m, cpu_id),
            None => Processor::Unknown { cpu_id, manufacturer },
        }
    }

    /// The processor id byte.
    pub fn to_code(self) -> (c: u8)
        ensures
            c == self.code(),
    {
        match self {
            Processor::Arm(p) => p.to_code(),
            Processor::Microchip(p) => p.to_code(),
            Processor::Atmel => 0,
            Processor::Unknown { cpu_id, manufacturer: _ } => cpu_id,
        }
    }

    /// The manufacturer byte that goes with the processor id.
    pub fn to_manufacturer_code(self) -> (c: u8)
        ensures
            c == self.manufacturer_code(),
    {
        match self {
            Processor::Arm(_) => ProcessorManufacturer::Arm.to_code(),
            Processor::Microchip(_) => ProcessorManufacturer::Microchip.to_code(),
            Processor::Atmel => ProcessorManufacturer::Atmel.to_code(),
            Processor::Unknown { cpu_id: _, manufacturer } => manufacturer,
        }
    }

    /// The processor that `cpu_id` names in the registry of `manufacturer`,
    /// or `UndefinedCode` when that registry has no name for it.
    pub fn try_from_code(manufacturer: ProcessorManufacturer, cpu_id: u8) -> (r: Result<
        Processor,
        UndefinedCode,
    >)
        ensures
            r == match Self::named(manufacturer, cpu_id) {
                Some(p) => Ok::<Processor, UndefinedCode>(p),
                None => Err(UndefinedCode { space: Self::space_of(manufacturer), value: cpu_id }),
            },
    {
        match manufacturer {
            ProcessorManufacturer::Microchip => match MicrochipProcessor::try_from_code(cpu_id) {
                Ok(p) => Ok(Processor::Microchip(p)),
                Err(e) => Err(e),
            },
            ProcessorManufacturer::Arm => match ArmProcessor::try_from_code(cpu_id) {
                Ok(p) => Ok(Processor::Arm(p)),
                Err(e) => Err(e),
            },
            ProcessorManufacturer::Atmel => Err(
                UndefinedCode { space: CodeSpace::Processor, value: cpu_id },
            ),
        }
    }

    /// The processor that `cpu_id` stands for under `manufacturer`. An id
    /// without a name is no error: it comes back in `Unknown`.
    pub fn from_code(manufacturer: ProcessorManufacturer, cpu_id: u8) -> (p: Processor)
        ensures
            p == Self::of(manufacturer, cpu_id),
    {
        match Self::try_from_code(manufacturer, cpu_id) {
            Ok(p) => p,
            Err(_) => Processor::Unknown { cpu_id, manufacturer: manufacturer.to_code() },
        }
    }

    /// The processor of an id that the caller knows to have a name in the
    /// registry of `manufacturer`.
    pub fn from_code_unchecked(manufacturer: ProcessorManufacturer, cpu_id: u8) -> (p: Processor)
        requires
            Self::named(manufacturer, cpu_id) is Some,
        ensures
            Self::named(manufacturer, cpu_id) == Some(p),
    {
        match Self::try_from_code(manufacturer, cpu_id) {
            Ok(p) => p,
            Err(_) => unreached(),
        }
    }

    /// The processor that `cpu_id` stands for under the manufacturer byte
    /// `manufacturer`, as both come off the wire.
    pub fn from_raw(manufacturer: u8, cpu_id: u8) -> (p: Processor)
        ensures
            p == Self::of_raw(manufacturer, cpu_id),
    {
        match ProcessorManufacturer::try_from_code(manufacturer) {
            Ok(m) => Self::from_code(m, cpu_id),
            Err(_) => Processor::Unknown { cpu_id, manufacturer },
        }
    }
}

/// A named processor has the id that it was named by, and the byte of the
/// manufacturer in whose registry it was found.
pub proof fn lemma_named_processor_codes(manufacturer: ProcessorManufacturer, cpu_id: u8)
    ensures
        Processor::named(manufacturer, cpu_id) matches Some(p) ==> p.code() == cpu_id
            && p.manufacturer_code() == manufacturer.code(),
{
}

/// Whatever the manufacturer and the id, the processor that they stand for
/// encodes as the same two bytes again.
pub proof fn lemma_processor_round_trip(manufacturer: ProcessorManufacturer, cpu_id: u8)
    ensures
        Processor::of(manufacturer, cpu_id).code() == cpu_id,
        Processor::of(manufacturer, cpu_id).manufacturer_code() == manufacturer.code(),
{
}

/// Whatever the two bytes off the wire, the processor that they stand for
/// encodes as the same two bytes again.
pub proof fn lemma_processor_raw_round_trip(manufacturer: u8, cpu_id: u8)
    ensures
        Processor::of_raw(manufacturer, cpu_id).code() == cpu_id,
        Processor::of_raw(manufacturer, cpu_id).manufacturer_code() == manufacturer,
{
    match ProcessorManufacturer::decode(manufacturer) {
        Some(m) => lemma_processor_round_trip(m, cpu_id),
        None => {},
    }
}

} // verus!
