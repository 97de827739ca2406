use vlcb_defs::ArmProcessor;
use vlcb_defs::BusType;
use vlcb_defs::CabDataCode;
use vlcb_defs::CabSignallingAspect1;
use vlcb_defs::CodeRegistry;
use vlcb_defs::CodeSpace;
use vlcb_defs::CommandError;
use vlcb_defs::DccError;
use vlcb_defs::DccServiceModeStatus;
use vlcb_defs::DccThrottleMode;
use vlcb_defs::GenericResponseStatus;
use vlcb_defs::Manufacturer;
use vlcb_defs::MergModuleType;
use vlcb_defs::MicrochipProcessor;
use vlcb_defs::ModuleMode;
use vlcb_defs::ModuleParams;
use vlcb_defs::OpCode;
use vlcb_defs::ProcessorManufacturer;
use vlcb_defs::RocRailModuleType;
use vlcb_defs::ServiceType;
use vlcb_defs::SpectrumModuleType;
use vlcb_defs::SprogModuleType;
use vlcb_defs::SysPixieModuleType;
use vlcb_defs::UndefinedCode;

/// Walks all 256 bytes through the checked conversion of `R`: a defined
/// byte must encode as itself again, an undefined one must give the error
/// with the space and the byte. Returns the identifiers found.
fn walk<R: CodeRegistry + Copy + PartialEq + std::fmt::Debug>(space: CodeSpace) -> Vec<R> {
    let mut found: Vec<R> = Vec::new();
    for b in 0..=255u8 {
        match R::try_from_code(b) {
            Ok(i) => {
                assert_eq!(i.to_code(), b);
                assert_eq!(R::from_code_unchecked(b), i);
                assert_eq!(R::try_from_code(i.to_code()), Ok(i));
                found.push(i);
            }
            Err(e) => {
                assert_eq!(e, UndefinedCode { space, value: b });
            }
        }
    }
    for (x, a) in found.iter().enumerate() {
        for (y, b) in found.iter().enumerate() {
            if x != y {
                assert_ne!(a, b);
                assert_ne!(a.to_code(), b.to_code());
            }
        }
    }
    found
}

#[test]
fn opcode_space_holds_142_codes() {
    assert_eq!(walk::<OpCode>(CodeSpace::OpCode).len(), 142);
}

#[test]
fn service_type_space_holds_12_codes() {
    assert_eq!(walk::<ServiceType>(CodeSpace::ServiceType).len(), 12);
}

#[test]
fn module_mode_space_holds_10_codes() {
    assert_eq!(walk::<ModuleMode>(CodeSpace::ModuleMode).len(), 10);
}

#[test]
fn generic_response_space_holds_6_codes() {
    assert_eq!(walk::<GenericResponseStatus>(CodeSpace::GenericResponseStatus).len(), 6);
}

#[test]
fn command_error_space_holds_13_codes() {
    assert_eq!(walk::<CommandError>(CodeSpace::CommandError).len(), 13);
}

#[test]
fn module_params_space_holds_15_codes() {
    assert_eq!(walk::<ModuleParams>(CodeSpace::ModuleParams).len(), 15);
}

#[test]
fn bus_type_space_holds_4_codes() {
    assert_eq!(walk::<BusType>(CodeSpace::BusType).len(), 4);
}

#[test]
fn throttle_mode_space_holds_4_codes() {
    assert_eq!(walk::<DccThrottleMode>(CodeSpace::DccThrottleMode).len(), 4);
}

#[test]
fn service_mode_status_space_holds_5_codes() {
    assert_eq!(walk::<DccServiceModeStatus>(CodeSpace::DccServiceModeStatus).len(), 5);
}

#[test]
fn dcc_error_space_holds_8_codes() {
    assert_eq!(walk::<DccError>(CodeSpace::DccError).len(), 8);
}

#[test]
fn cab_aspect_space_holds_6_codes() {
    assert_eq!(walk::<CabSignallingAspect1>(CodeSpace::CabSignallingAspect1).len(), 6);
}

#[test]
fn cab_data_code_space_holds_1_code() {
    assert_eq!(walk::<CabDataCode>(CodeSpace::CabDataCode).len(), 1);
}

#[test]
fn manufacturer_space_holds_8_codes() {
    assert_eq!(walk::<Manufacturer>(CodeSpace::Manufacturer).len(), 8);
}

#[test]
fn merg_module_type_space_holds_91_codes() {
    assert_eq!(walk::<MergModuleType>(CodeSpace::MergModuleType).len(), 91);
}

#[test]
fn sprog_module_type_space_holds_9_codes() {
    assert_eq!(walk::<SprogModuleType>(CodeSpace::SprogModuleType).len(), 9);
}

#[test]
fn rocrail_module_type_space_holds_8_codes() {
    assert_eq!(walk::<RocRailModuleType>(CodeSpace::RocRailModuleType).len(), 8);
}

#[test]
fn spectrum_module_type_space_holds_2_codes() {
    assert_eq!(walk::<SpectrumModuleType>(CodeSpace::SpectrumModuleType).len(), 2);
}

#[test]
fn syspixie_module_type_space_holds_1_code() {
    assert_eq!(walk::<SysPixieModuleType>(CodeSpace::SysPixieModuleType).len(), 1);
}

#[test]
fn processor_manufacturer_space_holds_3_codes() {
    assert_eq!(walk::<ProcessorManufacturer>(CodeSpace::ProcessorManufacturer).len(), 3);
}

#[test]
fn microchip_processor_space_holds_33_codes() {
    assert_eq!(walk::<MicrochipProcessor>(CodeSpace::MicrochipProcessor).len(), 33);
}

#[test]
fn arm_processor_space_holds_3_codes() {
    assert_eq!(walk::<ArmProcessor>(CodeSpace::ArmProcessor).len(), 3);
}

#[test]
fn opcode_known_values() {
    assert_eq!(OpCode::try_from_code(0), Ok(OpCode::GeneralAck));
    assert_eq!(OpCode::try_from_code(0x0D), Ok(OpCode::QueryNodeInfo));
    assert_eq!(OpCode::try_from_code(0x90), Ok(OpCode::LongEventAccessoryOn));
    assert_eq!(OpCode::try_from_code(0x91), Ok(OpCode::LongEventAccessoryOff));
    assert_eq!(OpCode::try_from_code(0xB6), Ok(OpCode::NodeInfo));
    assert_eq!(OpCode::try_from_code(0xE1), Ok(OpCode::DccLocoReport));
    assert_eq!(OpCode::try_from_code(0xFF), Ok(OpCode::ExtOpCode6));
    assert_eq!(OpCode::GeneralAck.to_code(), 0);
    assert_eq!(OpCode::ExtOpCode.to_code(), 63);
    assert_eq!(OpCode::Heartbeat.to_code(), 171);
    assert_eq!(OpCode::ExtOpCode6.to_code(), 255);
}

#[test]
fn opcode_undefined_bytes_are_reported() {
    for b in [11u8, 14, 15, 18, 32, 62, 98, 129, 200, 228, 238] {
        assert_eq!(
            OpCode::try_from_code(b),
            Err(UndefinedCode { space: CodeSpace::OpCode, value: b })
        );
    }
}

#[test]
fn opcode_0xe0_decodes_to_the_six_byte_packet_request() {
    let op = OpCode::try_from_code(0xE0).unwrap();
    assert_eq!(op, OpCode::DccSendRawPacket6);
    assert_eq!(op.data_byte_count(), 7);
    assert_eq!(OpCode::DccLocoReport.to_code(), 0xE1);
    assert_eq!(OpCode::DccLocoReport.data_byte_count(), 7);
}

#[test]
fn unchecked_conversion_of_a_defined_byte() {
    assert_eq!(OpCode::from_code_unchecked(0x0D), OpCode::QueryNodeInfo);
    assert_eq!(ServiceType::from_code_unchecked(17), ServiceType::Streaming);
    assert_eq!(Manufacturer::from_code_unchecked(250), Manufacturer::MERG_VLCB);
    let op = OpCode::WriteAck;
    assert_eq!(OpCode::from_code_unchecked(op.to_code()), op);
}

#[test]
fn std_conversions_agree_with_the_registry() {
    assert_eq!(u8::from(OpCode::QueryNodeInfo), 0x0D);
    let b: u8 = ServiceType::Streaming.into();
    assert_eq!(b, 17);
    assert_eq!(OpCode::try_from(0x0Du8), Ok(OpCode::QueryNodeInfo));
    assert_eq!(
        BusType::try_from(9u8),
        Err(UndefinedCode { space: CodeSpace::BusType, value: 9 })
    );
    let r: Result<BusType, UndefinedCode> = 1u8.try_into();
    assert_eq!(r, Ok(BusType::CAN));
    for b in 0..=255u8 {
        assert_eq!(OpCode::try_from(b), OpCode::try_from_code(b));
        assert_eq!(MergModuleType::try_from(b), MergModuleType::try_from_code(b));
    }
}

#[test]
fn module_mode_defaults_to_uninitialized() {
    assert_eq!(ModuleMode::from_code(0), ModuleMode::InSetup);
    assert_eq!(ModuleMode::from_code(1), ModuleMode::Normal);
    assert_eq!(ModuleMode::from_code(14), ModuleMode::Bootloader);
    assert_eq!(ModuleMode::from_code(255), ModuleMode::Uninitialized);
    assert_eq!(ModuleMode::from_code(2), ModuleMode::Uninitialized);
    assert_eq!(ModuleMode::from_code(200), ModuleMode::Uninitialized);
    assert_eq!(ModuleMode::from(9u8), ModuleMode::DisableLearnMode);
    assert_eq!(ModuleMode::from(100u8), ModuleMode::Uninitialized);
    assert_eq!(u8::from(ModuleMode::Uninitialized), 255);
    assert_eq!(
        ModuleMode::try_from_code(200),
        Err(UndefinedCode { space: CodeSpace::ModuleMode, value: 200 })
    );
    for b in 0..=255u8 {
        match ModuleMode::try_from_code(b) {
            Ok(m) => assert_eq!(ModuleMode::from_code(b), m),
            Err(_) => assert_eq!(ModuleMode::from_code(b), ModuleMode::Uninitialized),
        }
    }
}

#[test]
fn manufacturer_165_is_merg() {
    assert_eq!(Manufacturer::try_from_code(165), Ok(Manufacturer::MERG));
    assert_eq!(Manufacturer::try_from_code(44), Ok(Manufacturer::SPROG));
    assert_eq!(Manufacturer::try_from_code(13), Ok(Manufacturer::Development));
    assert_eq!(
        Manufacturer::try_from_code(0),
        Err(UndefinedCode { space: CodeSpace::Manufacturer, value: 0 })
    );
}

#[test]
fn parameter_block_indices() {
    assert_eq!(ModuleParams::ModuleParameterCount.to_code(), 0);
    assert_eq!(ModuleParams::ModuleManufacturer.to_code(), 1);
    assert_eq!(ModuleParams::MinorVersion.to_code(), 2);
    assert_eq!(ModuleParams::ModuleType.to_code(), 3);
    assert_eq!(ModuleParams::MaxEventCount.to_code(), 4);
    assert_eq!(ModuleParams::EventVariableCount.to_code(), 5);
    assert_eq!(ModuleParams::NodeVariableCount.to_code(), 6);
    assert_eq!(ModuleParams::MajorVersion.to_code(), 7);
    assert_eq!(ModuleParams::NodeFlags.to_code(), 8);
    assert_eq!(ModuleParams::CpuId.to_code(), 9);
    assert_eq!(ModuleParams::BusType.to_code(), 10);
    assert_eq!(ModuleParams::LoadAddress.to_code(), 11);
    assert_eq!(ModuleParams::CpuManufacturerId.to_code(), 15);
    assert_eq!(ModuleParams::CpuManufacturer.to_code(), 19);
    assert_eq!(ModuleParams::BetaVersion.to_code(), 20);
    for b in [12u8, 13, 14, 16, 17, 18, 21] {
        assert_eq!(
            ModuleParams::try_from_code(b),
            Err(UndefinedCode { space: CodeSpace::ModuleParams, value: b })
        );
    }
}

#[test]
fn generic_response_codes() {
    assert_eq!(GenericResponseStatus::Success.to_code(), 0);
    assert_eq!(GenericResponseStatus::InvalidMode.to_code(), 250);
    assert_eq!(GenericResponseStatus::UnknownPersistentMemoryType.to_code(), 254);
    assert_eq!(
        GenericResponseStatus::try_from_code(1),
        Err(UndefinedCode { space: CodeSpace::GenericResponseStatus, value: 1 })
    );
}

#[test]
fn one_byte_means_different_things_in_different_spaces() {
    assert_eq!(CommandError::try_from_code(1), Ok(CommandError::InvalidCommand));
    assert_eq!(DccError::try_from_code(1), Ok(DccError::LocoStackIsFull));
    assert_eq!(BusType::try_from_code(1), Ok(BusType::CAN));
    assert_eq!(CabDataCode::try_from_code(1), Ok(CabDataCode::CabSignalling));
    assert_eq!(CabSignallingAspect1::try_from_code(1), Ok(CabSignallingAspect1::Caution));
    assert_eq!(DccThrottleMode::try_from_code(1), Ok(DccThrottleMode::Step14));
    assert_eq!(DccServiceModeStatus::try_from_code(1), Ok(DccServiceModeStatus::NoAck));
    assert_eq!(ProcessorManufacturer::try_from_code(1), Ok(ProcessorManufacturer::Microchip));
    assert_eq!(MicrochipProcessor::try_from_code(1), Ok(MicrochipProcessor::P18F2480));
    assert_eq!(ArmProcessor::try_from_code(1), Ok(ArmProcessor::Arm1176JzfS));
    assert_eq!(SysPixieModuleType::try_from_code(1), Ok(SysPixieModuleType::CANPMSense));
    assert_eq!(SpectrumModuleType::try_from_code(1), Ok(SpectrumModuleType::AMCTRLR));
    assert_eq!(RocRailModuleType::try_from_code(1), Ok(RocRailModuleType::CANGC1));
    assert_eq!(SprogModuleType::try_from_code(1), Ok(SprogModuleType::CANPiSPRG3));
    assert_eq!(MergModuleType::try_from_code(1), Ok(MergModuleType::CANACC4));
}
