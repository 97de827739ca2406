use vlcb_defs::flags::ALL_FLAGS;
use vlcb_defs::flags::BOOTLOADER;
use vlcb_defs::flags::CONSUME_OWN_EVENTS;
use vlcb_defs::flags::EVENT_COMBI;
use vlcb_defs::flags::EVENT_CONSUMER;
use vlcb_defs::flags::EVENT_PRODUCER;
use vlcb_defs::flags::FLIM;
use vlcb_defs::flags::LEARN_MODE;
use vlcb_defs::flags::NORMAL_MODE;
use vlcb_defs::flags::SERVICE_DISCOVERY;
use vlcb_defs::flags::VLCB;
use vlcb_defs::ModuleFlags;

#[test]
fn flag_bit_assignments() {
    assert_eq!(EVENT_CONSUMER, 1 << 0);
    assert_eq!(EVENT_PRODUCER, 1 << 1);
    assert_eq!(EVENT_COMBI, 0b11);
    assert_eq!(FLIM, 1 << 2);
    assert_eq!(NORMAL_MODE, 1 << 2);
    assert_eq!(BOOTLOADER, 1 << 3);
    assert_eq!(CONSUME_OWN_EVENTS, 1 << 4);
    assert_eq!(LEARN_MODE, 1 << 5);
    assert_eq!(VLCB, 1 << 6);
    assert_eq!(SERVICE_DISCOVERY, 1 << 6);
    assert_eq!(ALL_FLAGS, 0x7F);
}

#[test]
fn named_flags_have_their_bits() {
    assert_eq!(ModuleFlags::empty().bits(), 0);
    assert_eq!(ModuleFlags::events_unsupported().bits(), 0);
    assert_eq!(ModuleFlags::event_consumer().bits(), 0x01);
    assert_eq!(ModuleFlags::event_producer().bits(), 0x02);
    assert_eq!(ModuleFlags::event_combi().bits(), 0x03);
    assert_eq!(ModuleFlags::flim().bits(), 0x04);
    assert_eq!(ModuleFlags::normal_mode().bits(), 0x04);
    assert_eq!(ModuleFlags::bootloader().bits(), 0x08);
    assert_eq!(ModuleFlags::consume_own_events().bits(), 0x10);
    assert_eq!(ModuleFlags::learn_mode().bits(), 0x20);
    assert_eq!(ModuleFlags::vlcb().bits(), 0x40);
    assert_eq!(ModuleFlags::service_discovery().bits(), 0x40);
    assert_eq!(ModuleFlags::all().bits(), 0x7F);
}

#[test]
fn the_two_names_of_a_bit_are_one_flag() {
    assert_eq!(ModuleFlags::flim(), ModuleFlags::normal_mode());
    assert_eq!(ModuleFlags::vlcb(), ModuleFlags::service_discovery());
    let mut f = ModuleFlags::empty();
    f.insert(ModuleFlags::flim());
    assert!(f.contains(ModuleFlags::normal_mode()));
    f.remove(ModuleFlags::normal_mode());
    assert!(!f.contains(ModuleFlags::flim()));
    assert!(f.is_empty());
}

#[test]
fn consumer_and_producer_make_combi() {
    let both = ModuleFlags::event_consumer().union(ModuleFlags::event_producer());
    assert_eq!(both, ModuleFlags::event_combi());
    assert!(both.contains(ModuleFlags::event_consumer()));
    assert!(both.contains(ModuleFlags::event_producer()));
    assert!(!ModuleFlags::event_consumer().contains(both));
}

#[test]
fn union_is_idempotent() {
    for b in 0..=255u8 {
        let f = ModuleFlags::from_bits_retain(b);
        assert_eq!(f.union(f), f);
        assert_eq!(f | f, f);
    }
}

#[test]
fn union_intersected_with_a_part_is_that_part() {
    for a in 0..=255u8 {
        for b in 0..=255u8 {
            let fa = ModuleFlags::from_bits_retain(a);
            let fb = ModuleFlags::from_bits_retain(b);
            assert_eq!(fa.union(fb).intersection(fa), fa);
            assert_eq!((fa | fb) & fa, fa);
            assert_eq!(((fa | fb) & fa).bits(), a);
        }
    }
}

#[test]
fn set_operations_on_chosen_sets() {
    let a = ModuleFlags::from_bits_retain(0b0010_1101);
    let b = ModuleFlags::from_bits_retain(0b0110_0110);
    assert_eq!(a.union(b).bits(), 0b0110_1111);
    assert_eq!(a.intersection(b).bits(), 0b0010_0100);
    assert_eq!(a.difference(b).bits(), 0b0000_1001);
    assert_eq!(b.difference(a).bits(), 0b0100_0010);
    assert_eq!(a.symmetric_difference(b).bits(), 0b0100_1011);
    assert_eq!(a.complement().bits(), 0b0101_0010);
    assert_eq!((a | b).bits(), 0b0110_1111);
    assert_eq!((a & b).bits(), 0b0010_0100);
    assert_eq!((a - b).bits(), 0b0000_1001);
    assert_eq!((a ^ b).bits(), 0b0100_1011);
    assert_eq!((!a).bits(), 0b0101_0010);
    assert!(a.intersects(b));
    assert!(!a.contains(b));
    assert!(a.contains(ModuleFlags::from_bits_retain(0b0000_1100)));
    assert!(!a.intersects(ModuleFlags::from_bits_retain(0b0101_0010)));
    assert!(a.contains(ModuleFlags::empty()));
    assert!(!a.intersects(ModuleFlags::empty()));
}

#[test]
fn difference_and_union() {
    for a in 0..=255u8 {
        for b in [0u8, 1, 0x55, 0x7F, 0x80, 0xAA, 0xFF, a] {
            let fa = ModuleFlags::from_bits_retain(a);
            let fb = ModuleFlags::from_bits_retain(b);
            assert!(!fa.difference(fb).intersects(fb));
            assert_eq!(fa.difference(fb).union(fb), fa.union(fb));
            assert!(fa.union(fb).contains(fa));
            assert!(fa.union(fb).contains(fb));
        }
    }
}

#[test]
fn any_byte_is_a_flag_set_and_comes_back() {
    for b in 0..=255u8 {
        let f = ModuleFlags::from_bits_retain(b);
        assert_eq!(f.bits(), b);
        assert_eq!(ModuleFlags::from_bits_retain(f.bits()), f);
    }
}

#[test]
fn the_reserved_bit_is_kept_by_the_retaining_conversion() {
    let f = ModuleFlags::from_bits_retain(0x81);
    assert_eq!(f.bits(), 0x81);
    assert!(f.contains(ModuleFlags::event_consumer()));
    assert_eq!(f.union(ModuleFlags::learn_mode()).bits(), 0xA1);
    assert_ne!(f, ModuleFlags::event_consumer());
}

#[test]
fn checked_conversion_refuses_the_reserved_bit() {
    assert_eq!(ModuleFlags::from_bits(0x00), Some(ModuleFlags::empty()));
    assert_eq!(ModuleFlags::from_bits(0x7F), Some(ModuleFlags::all()));
    assert_eq!(ModuleFlags::from_bits(0x29), Some(ModuleFlags::from_bits_retain(0x29)));
    assert_eq!(ModuleFlags::from_bits(0x80), None);
    assert_eq!(ModuleFlags::from_bits(0xFF), None);
    for b in 0..=255u8 {
        assert_eq!(ModuleFlags::from_bits(b).is_some(), b < 0x80);
    }
}

#[test]
fn truncating_conversion_drops_the_reserved_bit() {
    assert_eq!(ModuleFlags::from_bits_truncate(0xFF).bits(), 0x7F);
    assert_eq!(ModuleFlags::from_bits_truncate(0x80).bits(), 0x00);
    assert_eq!(ModuleFlags::from_bits_truncate(0x15).bits(), 0x15);
}

#[test]
fn emptiness_and_fullness() {
    assert!(ModuleFlags::empty().is_empty());
    assert!(!ModuleFlags::event_consumer().is_empty());
    assert!(ModuleFlags::all().is_all());
    assert!(ModuleFlags::from_bits_retain(0xFF).is_all());
    assert!(!ModuleFlags::from_bits_retain(0x7E).is_all());
    assert!(!ModuleFlags::from_bits_retain(0x80).is_empty());
}

#[test]
fn mutating_operations() {
    let mut f = ModuleFlags::event_consumer();
    f.insert(ModuleFlags::bootloader());
    assert_eq!(f.bits(), 0x09);
    f.toggle(ModuleFlags::from_bits_retain(0x0C));
    assert_eq!(f.bits(), 0x05);
    f.remove(ModuleFlags::event_combi());
    assert_eq!(f.bits(), 0x04);
    f.set(ModuleFlags::learn_mode(), true);
    assert_eq!(f.bits(), 0x24);
    f.set(ModuleFlags::normal_mode(), false);
    assert_eq!(f.bits(), 0x20);
}
