use vlcb_defs::CodeRegistry;
use vlcb_defs::CodeSpace;
use vlcb_defs::Manufacturer;
use vlcb_defs::MergModuleType;
use vlcb_defs::ModuleType;
use vlcb_defs::ModuleVersion;
use vlcb_defs::RocRailModuleType;
use vlcb_defs::SpectrumModuleType;
use vlcb_defs::SprogModuleType;
use vlcb_defs::SysPixieModuleType;
use vlcb_defs::UndefinedCode;

#[test]
fn version_keeps_its_parts() {
    let v = ModuleVersion::new(4, 'c', 102);
    assert_eq!(v.major(), 4);
    assert_eq!(v.minor(), 'c');
    assert_eq!(v.beta(), 102);
    let w = ModuleVersion::new(0, 'Z', 0);
    assert_eq!(w.major(), 0);
    assert_eq!(w.minor(), 'Z');
    assert_eq!(w.beta(), 0);
}

#[test]
fn version_takes_every_ascii_letter() {
    for c in ('a'..='z').chain('A'..='Z') {
        assert!(c.is_ascii_alphabetic());
        let v = ModuleVersion::new(255, c, 255);
        assert_eq!(v.minor(), c);
        assert!(v.minor().is_ascii_alphabetic());
    }
}

#[test]
fn module_type_byte_32_under_merg_and_under_others() {
    let merg = Manufacturer::try_from_code(165).unwrap();
    assert_eq!(merg, Manufacturer::MERG);
    assert_eq!(ModuleType::from_code(merg, 32), ModuleType::Merg(MergModuleType::CANMIO));
    assert_eq!(ModuleType::from_raw(165, 32), ModuleType::Merg(MergModuleType::CANMIO));
    assert_eq!(ModuleType::from_code(Manufacturer::SPROG, 32), ModuleType::Generic(32));
    assert_eq!(ModuleType::from_code(Manufacturer::ROCRAIL, 32), ModuleType::Generic(32));
    assert_eq!(ModuleType::from_code(Manufacturer::RME, 32), ModuleType::Generic(32));
    assert_eq!(ModuleType::from_raw(44, 32), ModuleType::Generic(32));
    assert_eq!(ModuleType::from_raw(0, 32), ModuleType::Generic(32));
}

#[test]
fn module_type_byte_1_in_each_vendor_namespace() {
    assert_eq!(
        ModuleType::from_code(Manufacturer::MERG, 1),
        ModuleType::Merg(MergModuleType::CANACC4)
    );
    assert_eq!(
        ModuleType::from_code(Manufacturer::SPROG, 1),
        ModuleType::Sprog(SprogModuleType::CANPiSPRG3)
    );
    assert_eq!(
        ModuleType::from_code(Manufacturer::ROCRAIL, 1),
        ModuleType::RocRail(RocRailModuleType::CANGC1)
    );
    assert_eq!(
        ModuleType::from_code(Manufacturer::SPECTRUM, 1),
        ModuleType::Spectrum(SpectrumModuleType::AMCTRLR)
    );
    assert_eq!(
        ModuleType::from_code(Manufacturer::SYSPIXIE, 1),
        ModuleType::SysPixie(SysPixieModuleType::CANPMSense)
    );
    assert_eq!(ModuleType::from_code(Manufacturer::Development, 1), ModuleType::Generic(1));
    assert_eq!(ModuleType::from_code(Manufacturer::MERG_VLCB, 1), ModuleType::Generic(1));
    assert_eq!(ModuleType::from_code(Manufacturer::RME, 1), ModuleType::Generic(1));
}

#[test]
fn module_type_encodes_by_its_arm() {
    assert_eq!(ModuleType::Vlcb.to_code(), 252);
    assert_eq!(ModuleType::Merg(MergModuleType::VLCB).to_code(), 252);
    assert_eq!(ModuleType::Merg(MergModuleType::CANMIO).to_code(), 32);
    assert_eq!(ModuleType::Sprog(SprogModuleType::CANSERVOIO).to_code(), 50);
    assert_eq!(ModuleType::RocRail(RocRailModuleType::CANGC1e).to_code(), 11);
    assert_eq!(ModuleType::Spectrum(SpectrumModuleType::DUALCAB).to_code(), 2);
    assert_eq!(ModuleType::SysPixie(SysPixieModuleType::CANPMSense).to_code(), 1);
    assert_eq!(ModuleType::Generic(0).to_code(), 0);
    assert_eq!(ModuleType::Generic(199).to_code(), 199);
    assert_eq!(u8::from(ModuleType::Vlcb), 252);
    assert_eq!(u8::from(ModuleType::Generic(7)), 7);
    let b: u8 = ModuleType::Merg(MergModuleType::CANPAN).into();
    assert_eq!(b, 29);
}

#[test]
fn module_type_round_trip_over_every_byte_pair() {
    for m in 0..=255u8 {
        for c in 0..=255u8 {
            let t = ModuleType::from_raw(m, c);
            assert_eq!(t.to_code(), c);
            assert_eq!(u8::from(t), c);
        }
    }
}

#[test]
fn module_type_round_trip_under_every_manufacturer() {
    for m in 0..=255u8 {
        if let Ok(man) = Manufacturer::try_from_code(m) {
            for c in 0..=255u8 {
                let t = ModuleType::from_code(man, c);
                assert_eq!(t.to_code(), c);
                assert_eq!(ModuleType::from_raw(m, c), t);
                match ModuleType::try_from_code(man, c) {
                    Ok(named) => {
                        assert_eq!(named, t);
                        assert!(!matches!(named, ModuleType::Generic(_)));
                        assert_eq!(ModuleType::from_code_unchecked(man, c), named);
                    }
                    Err(e) => {
                        assert_eq!(t, ModuleType::Generic(c));
                        assert_eq!(e.value, c);
                    }
                }
            }
        }
    }
}

#[test]
fn module_type_checked_conversion_names_the_space() {
    assert_eq!(
        ModuleType::try_from_code(Manufacturer::MERG, 32),
        Ok(ModuleType::Merg(MergModuleType::CANMIO))
    );
    assert_eq!(
        ModuleType::try_from_code(Manufacturer::MERG, 200),
        Err(UndefinedCode { space: CodeSpace::MergModuleType, value: 200 })
    );
    assert_eq!(
        ModuleType::try_from_code(Manufacturer::SPROG, 32),
        Err(UndefinedCode { space: CodeSpace::SprogModuleType, value: 32 })
    );
    assert_eq!(
        ModuleType::try_from_code(Manufacturer::ROCRAIL, 9),
        Err(UndefinedCode { space: CodeSpace::RocRailModuleType, value: 9 })
    );
    assert_eq!(
        ModuleType::try_from_code(Manufacturer::SPECTRUM, 3),
        Err(UndefinedCode { space: CodeSpace::SpectrumModuleType, value: 3 })
    );
    assert_eq!(
        ModuleType::try_from_code(Manufacturer::SYSPIXIE, 2),
        Err(UndefinedCode { space: CodeSpace::SysPixieModuleType, value: 2 })
    );
    assert_eq!(
        ModuleType::try_from_code(Manufacturer::RME, 1),
        Err(UndefinedCode { space: CodeSpace::ModuleType, value: 1 })
    );
    assert_eq!(
        ModuleType::try_from_code(Manufacturer::MERG_VLCB, 252),
        Err(UndefinedCode { space: CodeSpace::ModuleType, value: 252 })
    );
}

#[test]
fn module_type_252_under_merg_is_the_merg_entry() {
    assert_eq!(
        ModuleType::from_code(Manufacturer::MERG, 252),
        ModuleType::Merg(MergModuleType::VLCB)
    );
    assert_eq!(ModuleType::from_code(Manufacturer::SPROG, 252), ModuleType::Generic(252));
    assert_eq!(MergModuleType::VLCB.to_code(), ModuleType::Vlcb.to_code());
}
