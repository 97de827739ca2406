//! The one error of the checked conversions.

use vstd::prelude::*;

verus! {

/// The code spaces of the protocol: one for each registry, and two for the
/// manufacturers that number nothing of their own.
#[derive(Debug, Clone, Copy, PartialEq, Eq, Structural)]
pub enum CodeSpace {
    /// Operation codes.
    OpCode,
    /// Service types.
    ServiceType,
    /// Operating modes.
    ModuleMode,
    /// Result codes of a generic response.
    GenericResponseStatus,
    /// Error codes of a node under configuration.
    CommandError,
    /// Indices into the parameter block.
    ModuleParams,
    /// Bus types.
    BusType,
    /// Speed step modes of a throttle.
    DccThrottleMode,
    /// Status codes of service mode programming.
    DccServiceModeStatus,
    /// Error codes of a command station.
    DccError,
    /// Aspect codes of cab signalling.
    CabSignallingAspect1,
    /// Kinds of data sent to a cab.
    CabDataCode,
    /// Module manufacturers.
    Manufacturer,
    /// Module types of MERG.
    MergModuleType,
    /// Module types of SPROG DCC.
    SprogModuleType,
    /// Module types of Rocrail.
    RocRailModuleType,
    /// Module types of Spectrum Engineering.
    SpectrumModuleType,
    /// Module types of SysPixie.
    SysPixieModuleType,
    /// Processor manufacturers.
    ProcessorManufacturer,
    /// Processors of Microchip.
    MicrochipProcessor,
    /// Processors of ARM.
    ArmProcessor,
    /// The module types of a manufacturer that numbers none.
    ModuleType,
    /// The processors of a manufacturer that numbers none.
    Processor,
}

/// A byte that has no symbolic meaning in the code space it was read in.
#[derive(Debug, Clone, Copy, PartialEq, Eq, Structural)]
pub struct UndefinedCode {
    /// The code space that was consulted.
    pub space: CodeSpace,
    /// The byte that it does not define.
    pub value: u8,
}

} // verus!
