use elfio::elfio::Elfio;
use elfio::types::{
    FormatError, LoadError, ELFCLASS32, ELFCLASS64, ELFDATA2LSB, ELFDATA2MSB, ET_EXEC,
};

struct Fields {
    elf_version: u8,
    os_abi: u8,
    abi_version: u8,
    typ: u16,
    machine: u16,
    version: u32,
    entry: u64,
    phoff: u64,
    shoff: u64,
    flags: u32,
    ehsize: u16,
    phentsize: u16,
    phnum: u16,
    shentsize: u16,
    shnum: u16,
    shstrndx: u16,
}

fn sample() -> Fields {
    Fields {
        elf_version: 1,
        os_abi: 3,
        abi_version: 7,
        typ: ET_EXEC,
        machine: 0x3E,
        version: 1,
        entry: 0x401020,
        phoff: 0x40,
        shoff: 0x3a48,
        flags: 0x0102_0304,
        ehsize: 64,
        phentsize: 56,
        phnum: 13,
        shentsize: 64,
        shnum: 31,
        shstrndx: 30,
    }
}

fn put(out: &mut Vec<u8>, v: u64, size: usize, little: bool) {
    let bytes = v.to_le_bytes();
    if little {
        out.extend_from_slice(&bytes[..size]);
    } else {
        let mut part: Vec<u8> = bytes[..size].to_vec();
        part.reverse();
        out.extend_from_slice(&part);
    }
}

fn image(f: &Fields, wide: bool, little: bool) -> Vec<u8> {
    let class = if wide { ELFCLASS64 } else { ELFCLASS32 };
    let data = if little { ELFDATA2LSB } else { ELFDATA2MSB };
    let mut out = vec![0x7F, b'E', b'L', b'F', class, data, f.elf_version, f.os_abi, f.abi_version];
    out.resize(16, 0);
    let a = if wide { 8 } else { 4 };
    put(&mut out, f.typ as u64, 2, little);
    put(&mut out, f.machine as u64, 2, little);
    put(&mut out, f.version as u64, 4, little);
    put(&mut out, f.entry, a, little);
    put(&mut out, f.phoff, a, little);
    put(&mut out, f.shoff, a, little);
    put(&mut out, f.flags as u64, 4, little);
    put(&mut out, f.ehsize as u64, 2, little);
    put(&mut out, f.phentsize as u64, 2, little);
    put(&mut out, f.phnum as u64, 2, little);
    put(&mut out, f.shentsize as u64, 2, little);
    put(&mut out, f.shnum as u64, 2, little);
    put(&mut out, f.shstrndx as u64, 2, little);
    out
}

fn snapshot(e: &Elfio) -> Vec<u64> {
    vec![
        e.get_class() as u64,
        e.get_elf_version() as u64,
        e.get_encoding() as u64,
        e.get_header_size() as u64,
        e.get_section_entry_size() as u64,
        e.get_segment_entry_size() as u64,
        e.get_version() as u64,
        e.get_os_abi() as u64,
        e.get_abi_version() as u64,
        e.get_type() as u64,
        e.get_machine() as u64,
        e.get_flags() as u64,
        e.get_entry(),
        e.get_sections_num() as u64,
        e.get_sections_offset(),
        e.get_segments_num() as u64,
        e.get_segments_offset(),
        e.get_section_name_str_index() as u64,
    ]
}

fn assert_matches(e: &Elfio, f: &Fields) {
    assert_eq!(e.get_elf_version(), f.elf_version);
    assert_eq!(e.get_os_abi(), f.os_abi);
    assert_eq!(e.get_abi_version(), f.abi_version);
    assert_eq!(e.get_type(), f.typ);
    assert_eq!(e.get_machine(), f.machine);
    assert_eq!(e.get_version(), f.version);
    assert_eq!(e.get_entry(), f.entry);
    assert_eq!(e.get_segments_offset(), f.phoff);
    assert_eq!(e.get_sections_offset(), f.shoff);
    assert_eq!(e.get_flags(), f.flags);
    assert_eq!(e.get_header_size(), f.ehsize);
    assert_eq!(e.get_segment_entry_size(), f.phentsize);
    assert_eq!(e.get_segments_num(), f.phnum);
    assert_eq!(e.get_section_entry_size(), f.shentsize);
    assert_eq!(e.get_sections_num(), f.shnum);
    assert_eq!(e.get_section_name_str_index(), f.shstrndx);
}

#[test]
fn new_instance_reads_zero() {
    let e = Elfio::new();
    assert!(snapshot(&e).iter().all(|v| *v == 0));
}

#[test]
fn bad_magic_is_format_error_and_keeps_state() {
    let mut e = Elfio::new();
    assert_eq!(e.load(&image(&sample(), true, true)), Ok(()));
    let before = snapshot(&e);
    for pos in 0..4 {
        let mut bad = image(&sample(), false, false);
        bad[pos] ^= 0x20;
        assert_eq!(e.load(&bad), Err(LoadError::Format(FormatError::BadMagic)));
        assert_eq!(snapshot(&e), before);
    }
    let mut only_prefix = vec![0u8; 16];
    only_prefix[4] = ELFCLASS64;
    only_prefix[5] = ELFDATA2LSB;
    assert_eq!(e.load(&only_prefix), Err(LoadError::Format(FormatError::BadMagic)));
    assert_eq!(snapshot(&e), before);
}

#[test]
fn unknown_class_is_format_error() {
    for class in [0u8, 3, 0xFF] {
        let mut e = Elfio::new();
        let mut bad = image(&sample(), true, true);
        bad[4] = class;
        assert_eq!(e.load(&bad), Err(LoadError::Format(FormatError::UnknownClass)));
        assert_eq!(e.get_class(), 0);
    }
}

#[test]
fn unknown_encoding_is_format_error() {
    for data in [0u8, 3, 0x80] {
        let mut e = Elfio::new();
        let mut bad = image(&sample(), false, true);
        bad[5] = data;
        assert_eq!(e.load(&bad), Err(LoadError::Format(FormatError::UnknownEncoding)));
    }
}

#[test]
fn short_prefix_is_read_error() {
    let mut e = Elfio::new();
    assert_eq!(e.load(&[]), Err(LoadError::UnexpectedEof));
    let full = image(&sample(), true, true);
    assert_eq!(e.load(&full[..15]), Err(LoadError::UnexpectedEof));
    assert_eq!(e.load(&[0u8, 0, 0, 0]), Err(LoadError::UnexpectedEof));
}

#[test]
fn short_header_is_read_error_and_replaces_header() {
    let mut e = Elfio::new();
    assert_eq!(e.load(&image(&sample(), true, true)), Ok(()));
    let full = image(&sample(), true, true);
    assert_eq!(e.load(&full[..63]), Err(LoadError::UnexpectedEof));
    assert!(snapshot(&e).iter().all(|v| *v == 0));
    let narrow = image(&sample(), false, true);
    assert_eq!(narrow.len(), 52);
    assert_eq!(e.load(&narrow[..51]), Err(LoadError::UnexpectedEof));
    assert_eq!(e.load(&narrow), Ok(()));
}

#[test]
fn round_trip_64_little_endian() {
    let mut e = Elfio::new();
    let data = image(&sample(), true, true);
    assert_eq!(data.len(), 64);
    assert_eq!(e.load(&data), Ok(()));
    assert_eq!(e.get_entry(), 0x401020);
    assert_eq!(e.get_type(), 2);
    assert_eq!(e.get_machine(), 0x3E);
    assert_eq!(e.get_class(), ELFCLASS64);
    assert_matches(&e, &sample());
}

#[test]
fn concrete_prefix_scenario() {
    let mut data: Vec<u8> = vec![0x7F, b'E', b'L', b'F', 2, 1, 1, 0, 0, 0, 0, 0, 0, 0, 0, 0];
    data.extend_from_slice(&[0x02, 0x00, 0x3E, 0x00, 0x01, 0x00, 0x00, 0x00]);
    data.extend_from_slice(&[0x20, 0x10, 0x40, 0x00, 0x00, 0x00, 0x00, 0x00]);
    data.resize(64, 0);
    let mut e = Elfio::new();
    assert_eq!(e.load(&data), Ok(()));
    assert_eq!(e.get_class(), ELFCLASS64);
    assert_eq!(e.get_encoding(), ELFDATA2LSB);
    assert_eq!(e.get_entry(), 0x401020);
    assert_eq!(e.get_type(), 2);
    assert_eq!(e.get_machine(), 0x3E);
}

#[test]
fn big_endian_decodes_like_little_endian() {
    for wide in [true, false] {
        let mut le = Elfio::new();
        let mut be = Elfio::new();
        assert_eq!(le.load(&image(&sample(), wide, true)), Ok(()));
        assert_eq!(be.load(&image(&sample(), wide, false)), Ok(()));
        assert_eq!(le.get_encoding(), ELFDATA2LSB);
        assert_eq!(be.get_encoding(), ELFDATA2MSB);
        let mut a = snapshot(&le);
        let mut b = snapshot(&be);
        a[2] = 0;
        b[2] = 0;
        assert_eq!(a, b);
        assert_matches(&be, &sample());
    }
}

#[test]
fn big_endian_fields_are_byte_reversed() {
    let mut data: Vec<u8> = vec![0x7F, b'E', b'L', b'F', 1, 2, 1, 0, 0, 0, 0, 0, 0, 0, 0, 0];
    data.extend_from_slice(&[0x00, 0x03, 0x00, 0x28, 0x00, 0x00, 0x00, 0x01]);
    data.extend_from_slice(&[0x00, 0x01, 0x02, 0x03]);
    data.resize(52, 0);
    let mut e = Elfio::new();
    assert_eq!(e.load(&data), Ok(()));
    assert_eq!(e.get_class(), ELFCLASS32);
    assert_eq!(e.get_type(), 3);
    assert_eq!(e.get_machine(), 0x28);
    assert_eq!(e.get_version(), 1);
    assert_eq!(e.get_entry(), 0x0001_0203);
}

#[test]
fn loading_twice_gives_same_results() {
    let mut e = Elfio::new();
    let data = image(&sample(), true, false);
    assert_eq!(e.load(&data), Ok(()));
    let first = snapshot(&e);
    assert_eq!(e.load(&data), Ok(()));
    assert_eq!(snapshot(&e), first);
}

#[test]
fn second_load_replaces_first() {
    let mut e = Elfio::new();
    assert_eq!(e.load(&image(&sample(), true, true)), Ok(()));
    let mut other = sample();
    other.typ = 1;
    other.entry = 0;
    other.shnum = 0;
    assert_eq!(e.load(&image(&other, false, true)), Ok(()));
    assert_eq!(e.get_class(), ELFCLASS32);
    assert_matches(&e, &other);
    assert_eq!(e.load(&image(&sample(), true, true)), Ok(()));
    assert_eq!(e.get_class(), ELFCLASS64);
    assert_matches(&e, &sample());
}

#[test]
fn setters_change_one_field() {
    let mut e = Elfio::new();
    assert_eq!(e.load(&image(&sample(), true, true)), Ok(()));
    let before = snapshot(&e);
    e.set_machine(0xB7);
    assert_eq!(e.get_machine(), 0xB7);
    let mut expected = before.clone();
    expected[10] = 0xB7;
    assert_eq!(snapshot(&e), expected);
    e.set_entry(0x1234_5678_9ABC);
    assert_eq!(e.get_entry(), 0x1234_5678_9ABC);
    e.set_version(9);
    e.set_os_abi(97);
    e.set_abi_version(2);
    e.set_type(3);
    e.set_flags(0x5000_0000);
    e.set_sections_num(4);
    e.set_sections_offset(0x100);
    e.set_segments_num(5);
    e.set_segments_offset(0x200);
    e.set_section_name_str_index(3);
    assert_eq!(e.get_version(), 9);
    assert_eq!(e.get_os_abi(), 97);
    assert_eq!(e.get_abi_version(), 2);
    assert_eq!(e.get_type(), 3);
    assert_eq!(e.get_flags(), 0x5000_0000);
    assert_eq!(e.get_sections_num(), 4);
    assert_eq!(e.get_sections_offset(), 0x100);
    assert_eq!(e.get_segments_num(), 5);
    assert_eq!(e.get_segments_offset(), 0x200);
    assert_eq!(e.get_section_name_str_index(), 3);
}

#[test]
fn narrow_header_keeps_low_address_bits() {
    let mut e = Elfio::new();
    assert_eq!(e.load(&image(&sample(), false, true)), Ok(()));
    e.set_entry(0x1_2345_6789);
    assert_eq!(e.get_entry(), 0x2345_6789);
    e.set_sections_offset(0xFFFF_FFFF_0000_0010);
    assert_eq!(e.get_sections_offset(), 0x10);
    e.set_segments_offset(0x34);
    assert_eq!(e.get_segments_offset(), 0x34);
}
