use vlcb_defs::data_byte_count;
use vlcb_defs::CodeRegistry;
use vlcb_defs::OpCode;

#[test]
fn data_byte_count_of_each_band() {
    assert_eq!(data_byte_count(0x00), 0);
    assert_eq!(data_byte_count(0x1F), 0);
    assert_eq!(data_byte_count(0x20), 1);
    assert_eq!(data_byte_count(0x3F), 1);
    assert_eq!(data_byte_count(0x40), 2);
    assert_eq!(data_byte_count(0x5F), 2);
    assert_eq!(data_byte_count(0x60), 3);
    assert_eq!(data_byte_count(0x7F), 3);
    assert_eq!(data_byte_count(0x80), 4);
    assert_eq!(data_byte_count(0x9F), 4);
    assert_eq!(data_byte_count(0xA0), 5);
    assert_eq!(data_byte_count(0xBF), 5);
    assert_eq!(data_byte_count(0xC0), 6);
    assert_eq!(data_byte_count(0xDF), 6);
    assert_eq!(data_byte_count(0xE0), 7);
    assert_eq!(data_byte_count(0xFF), 7);
}

#[test]
fn data_byte_count_is_the_top_three_bits() {
    for b in 0..=255u8 {
        let n = data_byte_count(b);
        assert!(n <= 7);
        assert_eq!(n, b >> 5);
        assert_eq!(n, b / 32);
        assert_eq!(n, (b & 0b1110_0000) >> 5);
    }
}

#[test]
fn data_byte_count_works_on_bytes_without_a_name() {
    assert!(OpCode::try_from_code(0x0B).is_err());
    assert_eq!(data_byte_count(0x0B), 0);
    assert!(OpCode::try_from_code(0xC8).is_err());
    assert_eq!(data_byte_count(0xC8), 6);
    assert!(OpCode::try_from_code(0xEE).is_err());
    assert_eq!(data_byte_count(0xEE), 7);
}

#[test]
fn data_byte_count_of_an_identifier() {
    assert_eq!(OpCode::GeneralAck.data_byte_count(), 0);
    assert_eq!(OpCode::DccReleaseSession.data_byte_count(), 1);
    assert_eq!(OpCode::SetNodeNumber.data_byte_count(), 2);
    assert_eq!(OpCode::DccSetLocoFunctions.data_byte_count(), 3);
    assert_eq!(OpCode::LongEventAccessoryOn.data_byte_count(), 4);
    assert_eq!(OpCode::LongEventAccessoryOn1.data_byte_count(), 5);
    assert_eq!(OpCode::LongEventAccessoryOn2.data_byte_count(), 6);
    assert_eq!(OpCode::LongEventAccessoryOn3.data_byte_count(), 7);
    for b in 0..=255u8 {
        if let Ok(op) = OpCode::try_from_code(b) {
            assert_eq!(op.data_byte_count(), data_byte_count(b));
        }
    }
}
