//! Typed identifiers for the single-byte code spaces of the VLCB / CBUS
//! control protocol, with verified conversions to and from wire bytes.
//!
//! Every code space is a closed registry: an enum whose variants each stand
//! for one byte. [`TypedIdentifier`] holds the table of a registry and the
//! proof that no two identifiers share a byte; [`CodeRegistry`] gives every
//! registry the same conversions, a checked one, an unchecked one and the
//! encoding.
//!
//! Two values unite several registries: a [`ModuleType`] is read under the
//! manufacturer that numbers it, a [`Processor`] under the processor
//! manufacturer. [`ModuleFlags`] is the one bit mask of the protocol, and
//! [`data_byte_count`] is the length of a frame as the bits of its
//! operation code give it.

pub mod error;
pub mod registry;
pub mod opcode;
pub mod service;
pub mod params;
pub mod dcc;
pub mod vendor;
pub mod cpu;
pub mod flags;
pub mod module;
pub mod platform;

pub use error::CodeSpace;
pub use error::UndefinedCode;
pub use registry::CodeRegistry;
pub use registry::TypedIdentifier;
pub use opcode::OpCode;
pub use opcode::data_byte_count;
pub use service::ServiceType;
pub use service::ModuleMode;
pub use service::GenericResponseStatus;
pub use service::CommandError;
pub use params::ModuleParams;
pub use params::BusType;
pub use dcc::DccThrottleMode;
pub use dcc::DccServiceModeStatus;
pub use dcc::DccError;
pub use dcc::CabSignallingAspect1;
pub use dcc::CabDataCode;
pub use vendor::Manufacturer;
pub use vendor::MergModuleType;
pub use vendor::SprogModuleType;
pub use vendor::RocRailModuleType;
pub use vendor::SpectrumModuleType;
pub use vendor::SysPixieModuleType;
pub use cpu::ProcessorManufacturer;
pub use cpu::MicrochipProcessor;
pub use cpu::ArmProcessor;
pub use flags::ModuleFlags;
pub use module::ModuleType;
pub use module::ModuleVersion;
pub use platform::CpuManufacturerId;
pub use platform::Processor;
