use kernel_core::gate::{DescriptorPrivilageLevel, Entry, GateType, TypeAttribute};
use kernel_core::idt::{DescriptorTablePointer, InterruptDescriptorTable, ENTRY_COUNT};
use kernel_core::selector::{Selector, TableIndex};

#[test]
fn null_selector_is_zero() {
    assert_eq!(Selector::new().bits(), 0);
}

#[test]
fn selector_fields_land_in_their_bits() {
    assert_eq!(Selector::new().set_rpl(3).bits(), 0b11);
    assert_eq!(Selector::new().set_table_index(TableIndex::Ldt).bits(), 0b100);
    assert_eq!(Selector::new().set_index(1).bits(), 0b1000);
    assert_eq!(Selector::new().set_index(8191).bits(), 0xfff8);
    let s = Selector::new().set_rpl(2).set_table_index(TableIndex::Ldt).set_index(0x155);
    assert_eq!(s.bits(), (0x155 << 3) | 0b110);
}

#[test]
fn selector_round_trip_over_all_values() {
    for rpl in 0u8..=3 {
        for t in [TableIndex::Gdt, TableIndex::Ldt] {
            for index in (0u16..=8191).step_by(7).chain([8191u16]) {
                let s = Selector::new().set_rpl(rpl).set_table_index(t).set_index(index);
                assert_eq!(s.rpl(), rpl);
                assert!(s.table_index() == t);
                assert_eq!(s.index(), index);
            }
        }
    }
}

#[test]
fn selector_setters_overwrite_only_their_field() {
    let s = Selector::new().set_rpl(3).set_table_index(TableIndex::Ldt).set_index(8191);
    assert_eq!(s.bits(), 0xffff);
    let s = s.set_rpl(1);
    assert_eq!(s.bits(), 0xfffd);
    let s = s.set_table_index(TableIndex::Gdt);
    assert_eq!(s.bits(), 0xfff9);
    let s = s.set_index(0);
    assert_eq!(s.bits(), 0x0001);
    assert_eq!(s.rpl(), 1);
    assert!(s.table_index() == TableIndex::Gdt);
}

#[test]
fn attribute_default_is_zero() {
    assert_eq!(TypeAttribute::new().bits(), 0);
}

#[test]
fn attribute_fields_land_in_their_bits() {
    let mut a = TypeAttribute::new();
    a.set_present(true);
    assert_eq!(a.bits(), 0x80);
    let mut a = TypeAttribute::new();
    a.set_descriptor_privilage_level(DescriptorPrivilageLevel::Low);
    assert_eq!(a.bits(), 0x60);
    let mut a = TypeAttribute::new();
    a.set_descriptor_privilage_level(DescriptorPrivilageLevel::Medium);
    assert_eq!(a.bits(), 0x20);
    let mut a = TypeAttribute::new();
    a.set_gate(GateType::Interrupt32);
    assert_eq!(a.bits(), 0x0e);
}

#[test]
fn attribute_round_trip_in_any_order() {
    let gates = [
        (GateType::Task32, 0b0101u8),
        (GateType::Interrupt16, 0b0110),
        (GateType::Trap16, 0b0111),
        (GateType::Interrupt32, 0b1110),
        (GateType::Trap32, 0b1111),
    ];
    let levels = [
        (DescriptorPrivilageLevel::High, 0u8),
        (DescriptorPrivilageLevel::Medium, 1),
        (DescriptorPrivilageLevel::Low, 3),
    ];
    for (g, gb) in gates {
        for (d, db) in levels {
            for p in [false, true] {
                let mut a = TypeAttribute::new();
                a.set_present(p).set_descriptor_privilage_level(d).set_gate(g);
                let mut b = TypeAttribute::new();
                b.set_gate(g).set_descriptor_privilage_level(d).set_present(p);
                assert_eq!(a.bits(), b.bits());
                assert_eq!(a.bits() >> 7, p as u8);
                assert_eq!((a.bits() >> 5) & 0b11, db);
                assert_eq!(a.bits() & 0b1_1111, gb);
            }
        }
    }
}

#[test]
fn attribute_last_write_wins() {
    let mut a = TypeAttribute::new();
    a.set_present(true).set_gate(GateType::Trap32).set_descriptor_privilage_level(DescriptorPrivilageLevel::Low);
    assert_eq!(a.bits(), 0xef);
    a.set_present(false).set_gate(GateType::Task32);
    assert_eq!(a.bits(), 0x65);
    a.set_descriptor_privilage_level(DescriptorPrivilageLevel::High);
    assert_eq!(a.bits(), 0x05);
}

#[test]
fn entry_layout_for_handler_aabbccdd() {
    let s = Selector::new().set_index(1);
    let e = Entry::new(s, 0xAABBCCDD);
    assert_eq!(e.to_bytes(), [0xDD, 0xCC, 0x08, 0x00, 0x00, 0x00, 0xBB, 0xAA]);
    let s = Selector::new().set_rpl(3).set_index(0x1234);
    let e = Entry::new(s, 0xAABBCCDD);
    let sel = s.bits();
    assert_eq!(
        e.to_bytes(),
        [0xDD, 0xCC, (sel & 0xff) as u8, (sel >> 8) as u8, 0x00, 0x00, 0xBB, 0xAA]
    );
}

#[test]
fn entry_layout_with_attribute() {
    let mut t = InterruptDescriptorTable::new();
    t.set_handler(3, 0xAABBCCDD, 1)
        .set_present(true)
        .set_gate(GateType::Interrupt32);
    assert_eq!(t.entry(3).to_bytes(), [0xDD, 0xCC, 0x08, 0x00, 0x00, 0x8E, 0xBB, 0xAA]);
}

#[test]
fn missing_entry_is_all_zero() {
    assert_eq!(Entry::missing().to_bytes(), [0u8; 8]);
}

#[test]
fn table_pointer_size_is_bytes_minus_one() {
    assert_eq!(DescriptorTablePointer::for_entries(16, 0x1000).size, 127);
    assert_eq!(DescriptorTablePointer::for_entries(256, 0x1000).size, 2047);
    assert_eq!(DescriptorTablePointer::for_entries(1, 0).size, 7);
    assert_eq!(DescriptorTablePointer::for_entries(8192, 0).size, 65535);
    assert_eq!(DescriptorTablePointer::for_entries(16, 0x1000).base, 0x1000);
    let t = InterruptDescriptorTable::new();
    let p = t.descriptor_pointer(0xdead_0000);
    assert_eq!(p.size as usize, 8 * ENTRY_COUNT - 1);
    assert_eq!(p.base, 0xdead_0000);
}

#[test]
fn fresh_table_is_all_missing() {
    let t = InterruptDescriptorTable::new();
    for i in 0..ENTRY_COUNT {
        let e = t.entry(i);
        assert_eq!(e.to_bytes(), [0u8; 8]);
    }
    assert_eq!(t.to_bytes(), vec![0u8; 8 * ENTRY_COUNT]);
}

#[test]
fn set_handler_twice_keeps_the_second() {
    let mut t = InterruptDescriptorTable::new();
    t.set_handler(5, 0x1111_2222, 1).set_present(true);
    t.set_handler(5, 0x3333_4444, 2);
    assert_eq!(t.entry(5).to_bytes(), [0x44, 0x44, 0x10, 0x00, 0x00, 0x00, 0x33, 0x33]);
    for i in 0..ENTRY_COUNT {
        if i != 5 {
            assert_eq!(t.entry(i).to_bytes(), [0u8; 8]);
        }
    }
}

#[test]
fn table_image_places_entries_by_vector() {
    let mut t = InterruptDescriptorTable::new();
    t.set_handler(0, 0x0102_0304, 1).set_present(true).set_gate(GateType::Trap32);
    t.set_handler(15, 0x0506_0708, 1).set_present(true).set_gate(GateType::Interrupt32);
    let image = t.to_bytes();
    assert_eq!(image.len(), 128);
    assert_eq!(&image[0..8], &[0x04, 0x03, 0x08, 0x00, 0x00, 0x8F, 0x02, 0x01]);
    assert_eq!(&image[120..128], &[0x08, 0x07, 0x08, 0x00, 0x00, 0x8E, 0x06, 0x05]);
    assert!(image[8..120].iter().all(|b| *b == 0));
}
