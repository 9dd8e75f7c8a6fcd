use elfio::header::{ElfHeader, Load};
use elfio::section::{ElfSection, ElfSectionAccessTrait};
use elfio::types::{AddressWidth, LoadError};
use elfio::utils::{read_u16, read_u32, read_u64, Converter};

fn section_bytes(wide: bool, little: bool) -> Vec<u8> {
    let a = if wide { 8 } else { 4 };
    let values: Vec<(u64, usize)> = vec![
        (0x1b, 4),
        (1, 4),
        (6, a),
        (0x401000, a),
        (0x1000, a),
        (0x2345, a),
        (0, 4),
        (7, 4),
        (16, a),
        (24, a),
    ];
    let mut out = Vec::new();
    for (v, size) in values {
        let mut part: Vec<u8> = v.to_le_bytes()[..size].to_vec();
        if !little {
            part.reverse();
        }
        out.extend_from_slice(&part);
    }
    out
}

fn host_little() -> bool {
    u16::from_ne_bytes([1, 0]) == 1
}

fn check_section(s: &ElfSection) {
    assert_eq!(s.get_name_string_offset(), 0x1b);
    assert_eq!(s.get_type(), 1);
    assert_eq!(s.get_flags(), 6);
    assert_eq!(s.get_address(), 0x401000);
    assert_eq!(s.get_offset(), 0x1000);
    assert_eq!(s.get_size(), 0x2345);
    assert_eq!(s.get_link(), 0);
    assert_eq!(s.get_info(), 7);
    assert_eq!(s.get_addr_align(), 16);
    assert_eq!(s.get_entry_size(), 24);
}

#[test]
fn section_loads_in_every_layout() {
    let host = host_little();
    for wide in [true, false] {
        for little in [true, false] {
            let width = if wide { AddressWidth::Elf64 } else { AddressWidth::Elf32 };
            let data = section_bytes(wide, little);
            assert_eq!(data.len(), if wide { 64 } else { 40 });
            let mut s = ElfSection::new(width, Converter::new(little, host));
            assert_eq!(s.load(&data, host), Ok(()));
            check_section(&s);
        }
    }
}

#[test]
fn section_short_entry_is_read_error() {
    let host = host_little();
    let data = section_bytes(true, true);
    let mut s = ElfSection::new(AddressWidth::Elf64, Converter::new(true, host));
    assert_eq!(s.load(&data[..63], host), Err(LoadError::UnexpectedEof));
    assert_eq!(s.get_type(), 0);
    assert_eq!(s.get_size(), 0);
    let narrow = section_bytes(false, true);
    let mut t = ElfSection::new(AddressWidth::Elf32, Converter::new(true, host));
    assert_eq!(t.load(&narrow[..39], host), Err(LoadError::UnexpectedEof));
}

#[test]
fn section_converter_bound_before_load() {
    let host = host_little();
    let data = section_bytes(true, false);
    let mut s = ElfSection::new(AddressWidth::Elf64, Converter::new(host, host));
    s.set_converter(&Converter::new(false, host));
    assert_eq!(s.load(&data, host), Ok(()));
    check_section(&s);
}

#[test]
fn section_setters() {
    let mut s = ElfSection::new(AddressWidth::Elf32, Converter::new(true, true));
    s.set_name(String::from(".text"));
    assert_eq!(s.get_name(), ".text");
    s.set_type(8);
    s.set_flags(0x1_0000_0003);
    s.set_info(2);
    s.set_link(5);
    s.set_addr_align(0x20);
    s.set_entry_size(0x18);
    s.set_address(0xFFFF_0000_8000_0000);
    s.set_size(0x44);
    s.set_name_string_offset(0x11);
    s.set_offset(0x1_0000_0200);
    assert_eq!(s.get_type(), 8);
    assert_eq!(s.get_flags(), 3);
    assert_eq!(s.get_info(), 2);
    assert_eq!(s.get_link(), 5);
    assert_eq!(s.get_addr_align(), 0x20);
    assert_eq!(s.get_entry_size(), 0x18);
    assert_eq!(s.get_address(), 0x8000_0000);
    assert_eq!(s.get_size(), 0x44);
    assert_eq!(s.get_name_string_offset(), 0x11);
    assert_eq!(s.get_offset(), 0x200);
    assert_eq!(s.get_name(), ".text");
    let mut w = ElfSection::new(AddressWidth::Elf64, Converter::new(true, true));
    w.set_address(0xFFFF_0000_8000_0000);
    assert_eq!(w.get_address(), 0xFFFF_0000_8000_0000);
}

#[test]
fn header_record_loads_with_bound_converter() {
    let host = host_little();
    let mut data: Vec<u8> = vec![0x7F, b'E', b'L', b'F', 2, 2, 1, 0, 0, 0, 0, 0, 0, 0, 0, 0];
    data.extend_from_slice(&[0x00, 0x02, 0x00, 0x3E]);
    data.resize(64, 0);
    let mut h = ElfHeader::new(AddressWidth::Elf64, Converter::new(false, host));
    assert_eq!(h.load(&data, host), Ok(()));
    assert_eq!(h.e_type, 2);
    assert_eq!(h.e_machine, 0x3E);
    let mut g = ElfHeader::new(AddressWidth::Elf64, Converter::new(true, true));
    g.set_converter(&Converter::new(false, true));
    assert_eq!(g.converter, Converter::new(false, true));
    assert_eq!(g.load(&data[..40], host), Err(LoadError::UnexpectedEof));
}

#[test]
fn converter_swaps_only_when_needed() {
    let c = Converter::new(true, false);
    assert!(c.is_needed());
    assert_eq!(c.convert16(0x1234), 0x3412);
    assert_eq!(c.convert32(0x1122_3344), 0x4433_2211);
    assert_eq!(c.convert64(0x0102_0304_0506_0708), 0x0807_0605_0403_0201);
    let same = Converter::new(false, false);
    assert!(!same.is_needed());
    assert_eq!(same.convert16(0x1234), 0x1234);
    assert_eq!(same.convert32(0x1122_3344), 0x1122_3344);
    assert_eq!(same.convert64(0x0102_0304_0506_0708), 0x0102_0304_0506_0708);
}

#[test]
fn converter_twice_is_identity() {
    let c = Converter::new(false, true);
    for v in [0u64, 1, 0xFF, 0x0102_0304_0506_0708, u64::MAX, 0x8000_0000_0000_0001] {
        assert_eq!(c.convert64(c.convert64(v)), v);
        assert_eq!(c.convert32(c.convert32(v as u32)), v as u32);
        assert_eq!(c.convert16(c.convert16(v as u16)), v as u16);
    }
}

#[test]
fn readers_take_the_given_order() {
    let data = [0x01u8, 0x02, 0x03, 0x04, 0x05, 0x06, 0x07, 0x08, 0x09];
    assert_eq!(read_u16(&data, 1, true), 0x0302);
    assert_eq!(read_u16(&data, 1, false), 0x0203);
    assert_eq!(read_u32(&data, 0, true), 0x0403_0201);
    assert_eq!(read_u32(&data, 0, false), 0x0102_0304);
    assert_eq!(read_u64(&data, 1, true), 0x0908_0706_0504_0302);
    assert_eq!(read_u64(&data, 1, false), 0x0203_0405_0607_0809);
    let c = Converter::new(false, true);
    assert_eq!(c.read32(&data, 0, true), 0x0102_0304);
    assert_eq!(c.read16(&data, 0, false), 0x0201);
    assert_eq!(c.read64(&data, 0, false), 0x0807_0605_0403_0201);
}
