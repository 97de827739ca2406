use vlcb_defs::ArmProcessor;
use vlcb_defs::CodeRegistry;
use vlcb_defs::CodeSpace;
use vlcb_defs::CpuManufacturerId;
use vlcb_defs::MicrochipProcessor;
use vlcb_defs::Processor;
use vlcb_defs::ProcessorManufacturer;
use vlcb_defs::UndefinedCode;

#[test]
fn processor_ids_mean_different_things_under_different_manufacturers() {
    assert_eq!(Processor::from_raw(1, 1), Processor::Microchip(MicrochipProcessor::P18F2480));
    assert_eq!(Processor::from_raw(3, 1), Processor::Arm(ArmProcessor::Arm1176JzfS));
    assert_eq!(Processor::from_raw(2, 1), Processor::Unknown { cpu_id: 1, manufacturer: 2 });
    assert_eq!(Processor::from_raw(0, 1), Processor::Unknown { cpu_id: 1, manufacturer: 0 });
    assert_eq!(Processor::from_raw(77, 1), Processor::Unknown { cpu_id: 1, manufacturer: 77 });
}

#[test]
fn processor_known_values() {
    assert_eq!(
        Processor::from_code(ProcessorManufacturer::Microchip, 15),
        Processor::Microchip(MicrochipProcessor::P18F26K80)
    );
    assert_eq!(
        Processor::from_code(ProcessorManufacturer::Microchip, 38),
        Processor::Microchip(MicrochipProcessor::P32MX795F512)
    );
    assert_eq!(
        Processor::from_code(ProcessorManufacturer::Microchip, 24),
        Processor::Unknown { cpu_id: 24, manufacturer: 1 }
    );
    assert_eq!(
        Processor::from_code(ProcessorManufacturer::Arm, 3),
        Processor::Arm(ArmProcessor::CortexA53)
    );
    assert_eq!(
        Processor::from_code(ProcessorManufacturer::Arm, 4),
        Processor::Unknown { cpu_id: 4, manufacturer: 3 }
    );
    assert_eq!(
        Processor::from_code(ProcessorManufacturer::Atmel, 50),
        Processor::Unknown { cpu_id: 50, manufacturer: 2 }
    );
}

#[test]
fn processor_encodes_by_its_arm() {
    assert_eq!(Processor::Arm(ArmProcessor::CortexA7).to_code(), 2);
    assert_eq!(Processor::Arm(ArmProcessor::CortexA7).to_manufacturer_code(), 3);
    assert_eq!(Processor::Microchip(MicrochipProcessor::P18F14K22).to_code(), 25);
    assert_eq!(Processor::Microchip(MicrochipProcessor::P18F14K22).to_manufacturer_code(), 1);
    assert_eq!(Processor::Atmel.to_code(), 0);
    assert_eq!(Processor::Atmel.to_manufacturer_code(), 2);
    let u = Processor::Unknown { cpu_id: 200, manufacturer: 9 };
    assert_eq!(u.to_code(), 200);
    assert_eq!(u.to_manufacturer_code(), 9);
}

#[test]
fn processor_round_trip_over_every_byte_pair() {
    for m in 0..=255u8 {
        for c in 0..=255u8 {
            let p = Processor::from_raw(m, c);
            assert_eq!(p.to_code(), c);
            assert_eq!(p.to_manufacturer_code(), m);
            assert_ne!(p, Processor::Atmel);
        }
    }
}

#[test]
fn processor_checked_conversion() {
    assert_eq!(
        Processor::try_from_code(ProcessorManufacturer::Microchip, 1),
        Ok(Processor::Microchip(MicrochipProcessor::P18F2480))
    );
    assert_eq!(
        Processor::try_from_code(ProcessorManufacturer::Microchip, 0),
        Err(UndefinedCode { space: CodeSpace::MicrochipProcessor, value: 0 })
    );
    assert_eq!(
        Processor::try_from_code(ProcessorManufacturer::Arm, 9),
        Err(UndefinedCode { space: CodeSpace::ArmProcessor, value: 9 })
    );
    assert_eq!(
        Processor::try_from_code(ProcessorManufacturer::Atmel, 1),
        Err(UndefinedCode { space: CodeSpace::Processor, value: 1 })
    );
    for m in [ProcessorManufacturer::Microchip, ProcessorManufacturer::Atmel, ProcessorManufacturer::Arm] {
        for c in 0..=255u8 {
            let p = Processor::from_code(m, c);
            assert_eq!(p.to_code(), c);
            assert_eq!(p.to_manufacturer_code(), m.to_code());
            match Processor::try_from_code(m, c) {
                Ok(named) => {
                    assert_eq!(named, p);
                    assert_eq!(Processor::from_code_unchecked(m, c), named);
                }
                Err(e) => {
                    assert_eq!(p, Processor::Unknown { cpu_id: c, manufacturer: m.to_code() });
                    assert_eq!(e.value, c);
                }
            }
        }
    }
}

#[test]
fn cpu_manufacturer_id_is_four_characters() {
    let id: CpuManufacturerId = ['A', 'B', 'C', 'D'];
    assert_eq!(id.len(), 4);
}
