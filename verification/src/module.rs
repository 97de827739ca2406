//! What a module says of itself: its version and its type.

use vstd::prelude::*;
use crate::error::CodeSpace;
use crate::error::UndefinedCode;
use crate::registry::CodeRegistry;
use crate::registry::TypedIdentifier;
use crate::vendor::Manufacturer;
use crate::vendor::MergModuleType;
use crate::vendor::SprogModuleType;
use crate::vendor::RocRailModuleType;
use crate::vendor::SpectrumModuleType;
use crate::vendor::SysPixieModuleType;

verus! {

/// Whether `c` is one of the letters `A` to `Z` and `a` to `z`.
pub open spec fn is_ascii_letter(c: char) -> bool {
    ('A' <= c && c <= 'Z') || ('a' <= c && c <= 'z')
}

/// The version of a module's firmware: a major number, a minor letter and
/// a beta revision, which is 0 for a release.
///
/// The minor version is always an ASCII letter.
#[derive(Debug, Clone, Copy, PartialEq, Eq)]
pub struct ModuleVersion {
    major: u8,
    minor: char,
    beta: u8,
}

impl ModuleVersion {
    #[verifier::type_invariant]
    spec fn well_formed(self) -> bool {
        is_ascii_letter(self.minor)
    }

    /// The major version.
    pub closed spec fn spec_major(&self) -> u8 {
        self.major
    }

    /// The minor version.
    pub closed spec fn spec_minor(&self) -> char {
        self.minor
    }

    /// The beta revision.
    pub closed spec fn spec_beta(&self) -> u8 {
        self.beta
    }

    /// The version `major`, `minor`, `beta`. A minor version that is no
    /// letter is a fault in the firmware's build, not an input to handle:
    /// the caller sees to it that it is one.
    #[inline]
    pub fn new(major: u8, minor: char, beta: u8) -> (v: Self)
        requires
            is_ascii_letter(minor),
        ensures
            v.spec_major() == major,
            v.spec_minor() == minor,
            v.spec_beta() == beta,
    {
        Self { major, minor, beta }
    }

    /// The major version.
    #[inline]
    #[verifier::when_used_as_spec(spec_major)]
    pub fn major(&self) -> (major: u8)
        ensures
            major == self.spec_major(),
    {
        self.major
    }

    /// The minor version, a letter.
    #[inline]
    #[verifier::when_used_as_spec(spec_minor)]
    pub fn minor(&self) -> (minor: char)
        ensures
            minor == self.spec_minor(),
            is_ascii_letter(minor),
    {
        proof {
            use_type_invariant(self);
        }
        self.minor
    }

    /// The beta revision.
    #[inline]
    #[verifier::when_used_as_spec(spec_beta)]
    pub fn beta(&self) -> (beta: u8)
        ensures
            beta == self.spec_beta(),
    {
        self.beta
    }
}

/// No digit is a letter: a version cannot be made with a digit for its
/// minor version.
pub proof fn lemma_digit_is_no_letter(c: char)
    requires
        '0' <= c && c <= '9',
    ensures
        !is_ascii_letter(c),
{
}

/// The type of a module. Each manufacturer numbers its own module types,
/// so one byte names different types under different manufacturers: a
/// module type is read together with the manufacturer that it belongs to.
///
/// A byte that the manufacturer's registry does not define, or one of a
/// manufacturer that has no registry here, is kept as it is in `Generic`.
#[derive(Debug, Clone, Copy, PartialEq, Eq, Structural)]
pub enum ModuleType {
    /// The one type that every VLCB module reports.
    Vlcb,
    /// A module type of MERG.
    Merg(MergModuleType),
    /// A module type of SPROG DCC.
    Sprog(SprogModuleType),
    /// A module type of Rocrail.
    RocRail(RocRailModuleType),
    /// A module type of Spectrum Engineering.
    Spectrum(SpectrumModuleType),
    /// A module type of SysPixie.
    SysPixie(SysPixieModuleType),
    /// A byte that no registry claims.
    Generic(u8),
}

impl ModuleType {
    /// The wire byte of a module type: that of the identifier it holds, by
    /// the identifier's own registry, or the byte it carries.
    pub open spec fn code(self) -> u8 {
        match self {
            ModuleType::Vlcb => MergModuleType::VLCB.code(),
            ModuleType::Merg(v) => v.code(),
            ModuleType::Sprog(v) => v.code(),
            ModuleType::RocRail(v) => v.code(),
            ModuleType::Spectrum(v) => v.code(),
            ModuleType::SysPixie(v) => v.code(),
            ModuleType::Generic(v) => v,
        }
    }

    /// The code space in which `manufacturer` numbers its module types.
    /// For a manufacturer with no registry of its own it is
    /// `CodeSpace::ModuleType`, which defines no byte.
    pub open spec fn space_of(manufacturer: Manufacturer) -> CodeSpace {
        match manufacturer {
            Manufacturer::MERG => CodeSpace::MergModuleType,
            Manufacturer::SPROG => CodeSpace::SprogModuleType,
            Manufacturer::ROCRAIL => CodeSpace::RocRailModuleType,
            Manufacturer::SPECTRUM => CodeSpace::SpectrumModuleType,
            Manufacturer::SYSPIXIE => CodeSpace::SysPixieModuleType,
            _ => CodeSpace::ModuleType,
        }
    }

    /// The module type that `code` names in the registry of `manufacturer`,
    /// if that manufacturer has a registry and the registry defines `code`.
    pub open spec fn named(manufacturer: Manufacturer, code: u8) -> Option<ModuleType> {
        match manufacturer {
            Manufacturer::MERG => match MergModuleType::decode(code) {
                Some(v) => Some(ModuleType::Merg(v)),
                None => None,
            },
            Manufacturer::SPROG => match SprogModuleType::decode(code) {
                Some(v) => Some(ModuleType::Sprog(v)),
                None => None,
            },
            Manufacturer::ROCRAIL => match RocRailModuleType::decode(code) {
                Some(v) => Some(ModuleType::RocRail(v)),
                None => None,
            },
            Manufacturer::SPECTRUM => match SpectrumModuleType::decode(code) {
                Some(v) => Some(ModuleType::Spectrum(v)),
                None => None,
            },
            Manufacturer::SYSPIXIE => match SysPixieModuleType::decode(code) {
                Some(v) => Some(ModuleType::SysPixie(v)),
                None => None,
            },
            _ => None,
        }
    }

    /// The module type that `code` stands for under `manufacturer`: the
    /// named one where there is one, and else the byte itself.
    pub open spec fn of(manufacturer: Manufacturer, code: u8) -> ModuleType {
        match Self::named(manufacturer, code) {
            Some(t) => t,
            None => ModuleType::Generic(code),
        }
    }

    /// The module type that `code` stands for under the manufacturer byte
    /// `manufacturer`. Under a byte that names no manufacturer it is the
    /// byte `code` itself.
    pub open spec fn of_raw(manufacturer: u8, code: u8) -> ModuleType {
        match Manufacturer::decode(manufacturer) {
            Some(m) => Self::of(m, code),
            None => ModuleType::Generic(code),
        }
    }

    /// The wire byte of the module type.
    pub fn to_code(self) -> (c: u8)
        ensures
            c == self.code(),
    {
        u8::from(self)
    }

    /// The module type that `code` names in the registry of `manufacturer`,
    /// or `UndefinedCode` when that registry has no name for it.
    pub fn try_from_code(manufacturer: Manufacturer, code: u8) -> (r: Result<
        ModuleType,
        UndefinedCode,
    >)
        ensures
            r == match Self::named(manufacturer, code) {
                Some(t) => Ok::<ModuleType, UndefinedCode>(t),
                None => Err(UndefinedCode { space: Self::space_of(manufacturer), value: code }),
            },
    {
        match manufacturer {
            Manufacturer::MERG => match MergModuleType::try_from_code(code) {
                Ok(v) => Ok(ModuleType::Merg(v)),
                Err(e) => Err(e),
            },
            Manufacturer::SPROG => match SprogModuleType::try_from_code(code) {
                Ok(v) => Ok(ModuleType::Sprog(v)),
                Err(e) => Err(e),
            },
            Manufacturer::ROCRAIL => match RocRailModuleType::try_from_code(code) {
                Ok(v) => Ok(ModuleType::RocRail(v)),
                Err(e) => Err(e),
            },
            Manufacturer::SPECTRUM => match SpectrumModuleType::try_from_code(code) {
                Ok(v) => Ok(ModuleType::Spectrum(v)),
                Err(e) => Err(e),
            },
            Manufacturer::SYSPIXIE => match SysPixieModuleType::try_from_code(code) {
                Ok(v) => Ok(ModuleType::SysPixie(v)),
                Err(e) => Err(e),
            },
            _ => Err(UndefinedCode { space: CodeSpace::ModuleType, value: code }),
        }
    }

    /// The module type that `code` stands for under `manufacturer`. A byte
    /// without a name is no error: it comes back in `Generic`.
    pub fn from_code(manufacturer: Manufacturer, code: u8) -> (t: ModuleType)
        ensures
            t == Self::of(manufacturer, code),
    {
        match Self::try_from_code(manufacturer, code) {
            Ok(t) => t,
            Err(_) => ModuleType::Generic(code),
        }
    }

    /// The module type of a byte that the caller knows to have a name in
    /// the registry of `manufacturer`.
    pub fn from_code_unchecked(manufacturer: Manufacturer, code: u8) -> (t: ModuleType)
        requires
            Self::named(manufacturer, code) is Some,
        ensures
            Self::named(manufacturer, code) == Some(t),
    {
        match Self::try_from_code(manufacturer, code) {
            Ok(t) => t,
            Err(_) => unreached(),
        }
    }

    /// The module type that `code` stands for under the manufacturer byte
    /// `manufacturer`, as both come off the wire.
    pub fn from_raw(manufacturer: u8, code: u8) -> (t: ModuleType)
        ensures
            t == Self::of_raw(manufacturer, code),
    {
        match Manufacturer::try_from_code(manufacturer) {
            Ok(m) => Self::from_code(m, code),
            Err(_) => ModuleType::Generic(code),
        }
    }
}

impl From<ModuleType> for u8 {
    /// The wire byte of the module type.
    fn from(val: ModuleType) -> (c: u8) {
        match val {
            ModuleType::Vlcb => MergModuleType::VLCB.into(),
            ModuleType::Merg(v) => v.into(),
            ModuleType::Sprog(v) => v.into(),
            ModuleType::RocRail(v) => v.into(),
            ModuleType::Spectrum(v) => v.into(),
            ModuleType::SysPixie(v) => v.into(),
            ModuleType::Generic(v) => v,
        }
    }
}

impl vstd::std_specs::convert::FromSpecImpl<ModuleType> for u8 {
    open spec fn obeys_from_spec() -> bool {
        true
    }

    open spec fn from_spec(val: ModuleType) -> u8 {
        val.code()
    }
}

/// A named module type has the byte that it was named by.
pub proof fn lemma_named_code(manufacturer: Manufacturer, code: u8)
    ensures
        ModuleType::named(manufacturer, code) matches Some(t) ==> t.code() == code,
{
}

/// Whatever the manufacturer and the byte, the module type that the byte
/// stands for encodes as that byte again.
pub proof fn lemma_module_type_round_trip(manufacturer: Manufacturer, code: u8)
    ensures
        ModuleType::of(manufacturer, code).code() == code,
{
}

/// Whatever the two bytes off the wire, the module type that they stand
/// for encodes as the second of them again.
pub proof fn lemma_module_type_raw_round_trip(manufacturer: u8, code: u8)
    ensures
        ModuleType::of_raw(manufacturer, code).code() == code,
{
    match Manufacturer::decode(manufacturer) {
        Some(m) => lemma_module_type_round_trip(m, code),
        None => {},
    }
}

} // verus!
