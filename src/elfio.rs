//! The facade: validates the identification prefix, picks the address width,
//! binds the converter and serves the header fields.

use vstd::prelude::*;

use crate::header::{
    decode_header, empty_header, encode_header, fits_width, header_size, lemma_header_round_trip,
    ElfHeader, Load,
};
use crate::types::{
    AddressWidth, Elf64Addr, Elf64Off, ElfHalf, ElfWord, FormatError, LoadError, EI_CLASS, EI_DATA,
    EI_MAG0, EI_MAG1, EI_MAG2, EI_MAG3, EI_NIDENT, ELFCLASS32, ELFCLASS64, ELFDATA2LSB,
    ELFDATA2MSB, ELFMAG0, ELFMAG1, ELFMAG2, ELFMAG3,
};
use crate::utils::{host_probe, Converter};

verus! {

/// Whether `data` starts with the four ELF signature bytes.
pub open spec fn has_magic(data: Seq<u8>) -> bool {
    data[0] == ELFMAG0 && data[1] == ELFMAG1 && data[2] == ELFMAG2 && data[3] == ELFMAG3
}

/// The address width that a valid class byte selects.
pub open spec fn class_width(class: u8) -> AddressWidth {
    if class == ELFCLASS64 {
        AddressWidth::Elf64
    } else {
        AddressWidth::Elf32
    }
}

/// What is wrong with the identification prefix of `data`, if anything.
pub open spec fn ident_error(data: Seq<u8>) -> Option<LoadError> {
    if data.len() < EI_NIDENT {
        Some(LoadError::UnexpectedEof)
    } else if !has_magic(data) {
        Some(LoadError::Format(FormatError::BadMagic))
    } else if data[4] != ELFCLASS32 && data[4] != ELFCLASS64 {
        Some(LoadError::Format(FormatError::UnknownClass))
    } else if data[5] != ELFDATA2LSB && data[5] != ELFDATA2MSB {
        Some(LoadError::Format(FormatError::UnknownEncoding))
    } else {
        None
    }
}

/// Whether two headers agree on every field that an accessor shows, that is
/// on all but the bound converter.
pub open spec fn same_fields(a: ElfHeader, b: ElfHeader) -> bool {
    (ElfHeader { converter: b.converter, ..a }) == b
}

/// What a load returns once the identification prefix of `data` is valid.
pub open spec fn load_status(data: Seq<u8>) -> Result<(), LoadError> {
    if data.len() < header_size(class_width(data[4])) {
        Err(LoadError::UnexpectedEof)
    } else {
        Ok(())
    }
}

/// Whether `h` is the header that a load of `data`, whose identification
/// prefix is valid, leaves behind: the decoded header at the image's width
/// and byte order, or a zero header of that width when `data` is too short.
/// Nothing of the previous header survives; only the converter, which
/// depends on the host, is left open.
pub open spec fn holds_image(data: Seq<u8>, h: ElfHeader) -> bool {
    let w = class_width(data[4]);
    if data.len() < header_size(w) {
        h == empty_header(w, h.converter)
    } else {
        h == decode_header(data, w, h.converter, data[5] == ELFDATA2LSB)
    }
}

/// A stream of at least a full identification prefix fails to load with a
/// format error when its signature is wrong, when its signature is right
/// but its class byte is neither 32- nor 64-bit, or when both are right but
/// its encoding byte is neither little- nor big-endian.
pub proof fn lemma_format_errors(data: Seq<u8>)
    requires
        data.len() >= 16,
    ensures
        !has_magic(data) ==> ident_error(data) == Some(LoadError::Format(FormatError::BadMagic)),
        has_magic(data) && data[4] != 1 && data[4] != 2 ==> ident_error(data) == Some(
            LoadError::Format(FormatError::UnknownClass),
        ),
        has_magic(data) && (data[4] == 1 || data[4] == 2) && data[5] != 1 && data[5] != 2
            ==> ident_error(data) == Some(LoadError::Format(FormatError::UnknownEncoding)),
{
}

/// Loading the same stream twice gives the same accessor results: what a
/// load leaves depends on the stream alone, never on the previous header.
pub proof fn lemma_load_idempotent(data: Seq<u8>, first: ElfHeader, second: ElfHeader)
    requires
        ident_error(data) is None,
        holds_image(data, first),
        holds_image(data, second),
    ensures
        same_fields(first, second),
{
}

/// The class byte that selects `width`.
pub open spec fn width_class(width: AddressWidth) -> u8 {
    match width {
        AddressWidth::Elf32 => ELFCLASS32,
        AddressWidth::Elf64 => ELFCLASS64,
    }
}

/// Two images that carry the same header values, one little-endian and one
/// big-endian with the encoding byte set to match, both load, and every
/// accessor but the encoding one gives the same result on them: the values
/// of the header, with the class of its width.
pub proof fn lemma_endianness_equivalence(h: ElfHeader, from_le: ElfHeader, from_be: ElfHeader)
    requires
        fits_width(h),
        holds_image(encode_header(h, true), from_le),
        holds_image(encode_header(h, false), from_be),
    ensures
        ident_error(encode_header(h, true)) is None,
        ident_error(encode_header(h, false)) is None,
        load_status(encode_header(h, true)) is Ok,
        load_status(encode_header(h, false)) is Ok,
        from_le.ei_data == ELFDATA2LSB,
        from_be.ei_data == ELFDATA2MSB,
        same_fields(from_le, (ElfHeader { ei_class: width_class(h.width), ei_data: ELFDATA2LSB, ..h })),
        same_fields(from_be, (ElfHeader { ei_class: width_class(h.width), ei_data: ELFDATA2MSB, ..h })),
{
    let le = encode_header(h, true);
    let be = encode_header(h, false);
    assert(class_width(le[4]) == h.width);
    assert(class_width(be[4]) == h.width);
    lemma_header_round_trip(h, true, from_le.converter);
    lemma_header_round_trip(h, false, from_be.converter);
}

/// The main entry point: holds the header of the last loaded image.
pub struct Elfio {
    header: ElfHeader,
}

impl View for Elfio {
    type V = ElfHeader;

    /// The current header.
    closed spec fn view(&self) -> ElfHeader {
        self.header
    }
}

impl Elfio {
    /// An instance holding a 64-bit header with every field zero.
    pub fn new() -> (r: Elfio)
        ensures
            r@ == empty_header(AddressWidth::Elf64, Converter { is_needed: false }),
    {
        Elfio { header: ElfHeader::new(AddressWidth::Elf64, Converter { is_needed: false }) }
    }

    /// Loads an image whose bytes are `data`. The identification prefix is
    /// checked first; an error there leaves the instance unchanged. Past
    /// it, the previous header is discarded, and a short image leaves a
    /// zero header of the image's width.
    pub fn load(&mut self, data: &[u8]) -> (r: Result<(), LoadError>)
        ensures
            ident_error(data@) matches Some(e) ==> r == Err::<(), LoadError>(e) && *final(self)
                == *old(self),
            ident_error(data@) is None ==> r == load_status(data@) && holds_image(
                data@,
                final(self)@,
            ),
    {
        if data.len() < EI_NIDENT {
            return Err(LoadError::UnexpectedEof);
        }
        if data[EI_MAG0] != ELFMAG0 || data[EI_MAG1] != ELFMAG1 || data[EI_MAG2] != ELFMAG2
            || data[EI_MAG3] != ELFMAG3 {
            return Err(LoadError::Format(FormatError::BadMagic));
        }
        let class = data[EI_CLASS];
        if class != ELFCLASS64 && class != ELFCLASS32 {
            return Err(LoadError::Format(FormatError::UnknownClass));
        }
        let encoding = data[EI_DATA];
        if encoding != ELFDATA2LSB && encoding != ELFDATA2MSB {
            return Err(LoadError::Format(FormatError::UnknownEncoding));
        }
        let width = if class == ELFCLASS64 {
            AddressWidth::Elf64
        } else {
            AddressWidth::Elf32
        };
        let host_little = host_probe() == 1;
        let converter = Converter::new(encoding == ELFDATA2LSB, host_little);
        self.header = ElfHeader::new(width, converter);
        match self.header.load(data, host_little) {
            Ok(_) => Ok(()),
            Err(e) => Err(e),
        }
    }

    /// The class byte of the identification prefix.
    pub fn get_class(&self) -> (r: u8)
        ensures
            r == self@.ei_class,
    {
        self.header.ei_class
    }

    /// The format version byte of the identification prefix.
    pub fn get_elf_version(&self) -> (r: u8)
        ensures
            r == self@.ei_version,
    {
        self.header.ei_version
    }

    /// The data-encoding byte of the identification prefix.
    pub fn get_encoding(&self) -> (r: u8)
        ensures
            r == self@.ei_data,
    {
        self.header.ei_data
    }

    /// The header's own byte size, as recorded in it.
    pub fn get_header_size(&self) -> (r: ElfHalf)
        ensures
            r == self@.e_ehsize,
    {
        self.header.e_ehsize
    }

    /// The byte size of one section-table entry.
    pub fn get_section_entry_size(&self) -> (r: ElfHalf)
        ensures
            r == self@.e_shentsize,
    {
        self.header.e_shentsize
    }

    /// The byte size of one segment-table entry.
    pub fn get_segment_entry_size(&self) -> (r: ElfHalf)
        ensures
            r == self@.e_phentsize,
    {
        self.header.e_phentsize
    }

    /// The object file version.
    pub fn get_version(&self) -> (r: ElfWord)
        ensures
            r == self@.e_version,
    {
        self.header.e_version
    }

    /// Sets the object file version.
    pub fn set_version(&mut self, value: ElfWord)
        ensures
            final(self)@ == (ElfHeader { e_version: value, ..old(self)@ }),
    {
        self.header.e_version = value;
    }

    /// The OS ABI byte.
    pub fn get_os_abi(&self) -> (r: u8)
        ensures
            r == self@.ei_osabi,
    {
        self.header.ei_osabi
    }

    /// Sets the OS ABI byte.
    pub fn set_os_abi(&mut self, value: u8)
        ensures
            final(self)@ == (ElfHeader { ei_osabi: value, ..old(self)@ }),
    {
        self.header.ei_osabi = value;
    }

    /// The ABI version byte.
    pub fn get_abi_version(&self) -> (r: u8)
        ensures
            r == self@.ei_abiversion,
    {
        self.header.ei_abiversion
    }

    /// Sets the ABI version byte.
    pub fn set_abi_version(&mut self, value: u8)
        ensures
            final(self)@ == (ElfHeader { ei_abiversion: value, ..old(self)@ }),
    {
        self.header.ei_abiversion = value;
    }

    /// The object file type.
    pub fn get_type(&self) -> (r: ElfHalf)
        ensures
            r == self@.e_type,
    {
        self.header.e_type
    }

    /// Sets the object file type.
    pub fn set_type(&mut self, value: ElfHalf)
        ensures
            final(self)@ == (ElfHeader { e_type: value, ..old(self)@ }),
    {
        self.header.e_type = value;
    }

    /// The target machine.
    pub fn get_machine(&self) -> (r: ElfHalf)
        ensures
            r == self@.e_machine,
    {
        self.header.e_machine
    }

    /// Sets the target machine.
    pub fn set_machine(&mut self, value: ElfHalf)
        ensures
            final(self)@ == (ElfHeader { e_machine: value, ..old(self)@ }),
    {
        self.header.e_machine = value;
    }

    /// The processor-specific flags.
    pub fn get_flags(&self) -> (r: ElfWord)
        ensures
            r == self@.e_flags,
    {
        self.header.e_flags
    }

    /// Sets the processor-specific flags.
    pub fn set_flags(&mut self, value: ElfWord)
        ensures
            final(self)@ == (ElfHeader { e_flags: value, ..old(self)@ }),
    {
        self.header.e_flags = value;
    }

    /// The entry-point address.
    pub fn get_entry(&self) -> (r: Elf64Addr)
        ensures
            r == self@.e_entry,
    {
        self.header.e_entry
    }

    /// Sets the entry-point address. A 32-bit header keeps the low 32 bits.
    pub fn set_entry(&mut self, value: Elf64Addr)
        ensures
            final(self)@ == (ElfHeader { e_entry: old(self)@.width.spec_fit(value), ..old(self)@ }),
    {
        self.header.e_entry = self.header.width.fit(value);
    }

    /// The number of section-table entries.
    pub fn get_sections_num(&self) -> (r: ElfHalf)
        ensures
            r == self@.e_shnum,
    {
        self.header.e_shnum
    }

    /// Sets the number of section-table entries.
    pub fn set_sections_num(&mut self, value: ElfHalf)
        ensures
            final(self)@ == (ElfHeader { e_shnum: value, ..old(self)@ }),
    {
        self.header.e_shnum = value;
    }

    /// The file offset of the section table.
    pub fn get_sections_offset(&self) -> (r: Elf64Off)
        ensures
            r == self@.e_shoff,
    {
        self.header.e_shoff
    }

    /// Sets the file offset of the section table. A 32-bit header keeps the low 32 bits.
    pub fn set_sections_offset(&mut self, value: Elf64Off)
        ensures
            final(self)@ == (ElfHeader { e_shoff: old(self)@.width.spec_fit(value), ..old(self)@ }),
    {
        self.header.e_shoff = self.header.width.fit(value);
    }

    /// The number of segment-table entries.
    pub fn get_segments_num(&self) -> (r: ElfHalf)
        ensures
            r == self@.e_phnum,
    {
        self.header.e_phnum
    }

    /// Sets the number of segment-table entries.
    pub fn set_segments_num(&mut self, value: ElfHalf)
        ensures
            final(self)@ == (ElfHeader { e_phnum: value, ..old(self)@ }),
    {
        self.header.e_phnum = value;
    }

    /// The file offset of the segment table.
    pub fn get_segments_offset(&self) -> (r: Elf64Off)
        ensures
            r == self@.e_phoff,
    {
        self.header.e_phoff
    }

    /// Sets the file offset of the segment table. A 32-bit header keeps the low 32 bits.
    pub fn set_segments_offset(&mut self, value: Elf64Off)
        ensures
            final(self)@ == (ElfHeader { e_phoff: old(self)@.width.spec_fit(value), ..old(self)@ }),
    {
        self.header.e_phoff = self.header.width.fit(value);
    }

    /// The index of the section holding section names.
    pub fn get_section_name_str_index(&self) -> (r: ElfHalf)
        ensures
            r == self@.e_shstrndx,
    {
        self.header.e_shstrndx
    }

    /// Sets the index of the section holding section names.
    pub fn set_section_name_str_index(&mut self, value: ElfHalf)
        ensures
            final(self)@ == (ElfHeader { e_shstrndx: value, ..old(self)@ }),
    {
        self.header.e_shstrndx = value;
    }
}

} // verus!
