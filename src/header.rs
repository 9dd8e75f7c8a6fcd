//! The file header record and the load capability shared by every record kind.

use vstd::prelude::*;

use crate::types::{AddressWidth, LoadError, ELF32_HEADER_SIZE, ELF64_HEADER_SIZE};
use crate::utils::{
    byte_of, encodes, lemma_read16_encoded, lemma_read32_encoded, lemma_read64_encoded, u16_at,
    u32_at, u64_at, Converter,
};

verus! {

/// A fixed-layout record that is filled from bytes in the file's byte order.
pub trait Load: Sized {
    /// Number of bytes the record occupies in the file.
    spec fn spec_record_size(&self) -> int;

    /// The record after its fields were read from `data`, where the host is
    /// little-endian when `host_little` holds.
    spec fn spec_loaded(&self, data: Seq<u8>, host_little: bool) -> Self;

    /// Reads the record from the start of `data`, converting every field with
    /// the bound converter. Fails, leaving the record as it was, when `data`
    /// is shorter than the record.
    fn load(&mut self, data: &[u8], host_little: bool) -> (r: Result<(), LoadError>)
        ensures
            r is Ok <==> data@.len() >= old(self).spec_record_size(),
            r is Ok ==> *final(self) == old(self).spec_loaded(data@, host_little),
            r is Err ==> r == Err::<(), LoadError>(LoadError::UnexpectedEof) && *final(self)
                == *old(self),
    ;
}

/// An address or offset field at `i`, of the given width.
pub open spec fn addr_at(data: Seq<u8>, i: int, width: AddressWidth, little: bool) -> u64 {
    match width {
        AddressWidth::Elf32 => u32_at(data, i, little) as u64,
        AddressWidth::Elf64 => u64_at(data, i, little),
    }
}

/// Byte size of the file header of the given width.
pub open spec fn header_size(width: AddressWidth) -> int {
    match width {
        AddressWidth::Elf32 => 52,
        AddressWidth::Elf64 => 64,
    }
}

/// The file header with every field decoded. Address and offset fields hold
/// zero-extended values in a 32-bit header.
#[derive(Clone, Copy, Debug, PartialEq, Eq, Structural)]
pub struct ElfHeader {
    pub width: AddressWidth,
    pub converter: Converter,
    pub ei_class: u8,
    pub ei_data: u8,
    pub ei_version: u8,
    pub ei_osabi: u8,
    pub ei_abiversion: u8,
    pub e_type: u16,
    pub e_machine: u16,
    pub e_version: u32,
    pub e_entry: u64,
    pub e_phoff: u64,
    pub e_shoff: u64,
    pub e_flags: u32,
    pub e_ehsize: u16,
    pub e_phentsize: u16,
    pub e_phnum: u16,
    pub e_shentsize: u16,
    pub e_shnum: u16,
    pub e_shstrndx: u16,
}

/// A header of the given width and converter with every field zero.
pub open spec fn empty_header(width: AddressWidth, converter: Converter) -> ElfHeader {
    ElfHeader {
        width,
        converter,
        ei_class: 0,
        ei_data: 0,
        ei_version: 0,
        ei_osabi: 0,
        ei_abiversion: 0,
        e_type: 0,
        e_machine: 0,
        e_version: 0,
        e_entry: 0,
        e_phoff: 0,
        e_shoff: 0,
        e_flags: 0,
        e_ehsize: 0,
        e_phentsize: 0,
        e_phnum: 0,
        e_shentsize: 0,
        e_shnum: 0,
        e_shstrndx: 0,
    }
}

/// The header laid out in `data` at the given width, multi-byte fields read
/// little-endian when `little` holds.
pub open spec fn decode_header(
    data: Seq<u8>,
    width: AddressWidth,
    converter: Converter,
    little: bool,
) -> ElfHeader {
    let a = width.spec_addr_size();
    ElfHeader {
        width,
        converter,
        ei_class: data[4],
        ei_data: data[5],
        ei_version: data[6],
        ei_osabi: data[7],
        ei_abiversion: data[8],
        e_type: u16_at(data, 16, little),
        e_machine: u16_at(data, 18, little),
        e_version: u32_at(data, 20, little),
        e_entry: addr_at(data, 24, width, little),
        e_phoff: addr_at(data, 24 + a, width, little),
        e_shoff: addr_at(data, 24 + 2 * a, width, little),
        e_flags: u32_at(data, 24 + 3 * a, little),
        e_ehsize: u16_at(data, 28 + 3 * a, little),
        e_phentsize: u16_at(data, 30 + 3 * a, little),
        e_phnum: u16_at(data, 32 + 3 * a, little),
        e_shentsize: u16_at(data, 34 + 3 * a, little),
        e_shnum: u16_at(data, 36 + 3 * a, little),
        e_shstrndx: u16_at(data, 38 + 3 * a, little),
    }
}

/// Byte `i` of the image of header `h`, laid out at its width, multi-byte
/// fields little-endian when `little` holds. The identification prefix
/// carries the signature, the class of the width and the encoding of
/// `little`.
pub open spec fn header_byte(h: ElfHeader, little: bool, i: int) -> u8 {
    let a = h.width.spec_addr_size();
    if i == 0 {
        0x7F
    } else if i == 1 {
        0x45
    } else if i == 2 {
        0x4C
    } else if i == 3 {
        0x46
    } else if i == 4 {
        if a == 8 {
            2
        } else {
            1
        }
    } else if i == 5 {
        if little {
            1
        } else {
            2
        }
    } else if i == 6 {
        h.ei_version
    } else if i == 7 {
        h.ei_osabi
    } else if i == 8 {
        h.ei_abiversion
    } else if i < 16 {
        0
    } else if i < 18 {
        byte_of(h.e_type as u64, 2, i - 16, little)
    } else if i < 20 {
        byte_of(h.e_machine as u64, 2, i - 18, little)
    } else if i < 24 {
        byte_of(h.e_version as u64, 4, i - 20, little)
    } else if i < 24 + a {
        byte_of(h.e_entry, a, i - 24, little)
    } else if i < 24 + 2 * a {
        byte_of(h.e_phoff, a, i - (24 + a), little)
    } else if i < 24 + 3 * a {
        byte_of(h.e_shoff, a, i - (24 + 2 * a), little)
    } else if i < 28 + 3 * a {
        byte_of(h.e_flags as u64, 4, i - (24 + 3 * a), little)
    } else if i < 30 + 3 * a {
        byte_of(h.e_ehsize as u64, 2, i - (28 + 3 * a), little)
    } else if i < 32 + 3 * a {
        byte_of(h.e_phentsize as u64, 2, i - (30 + 3 * a), little)
    } else if i < 34 + 3 * a {
        byte_of(h.e_phnum as u64, 2, i - (32 + 3 * a), little)
    } else if i < 36 + 3 * a {
        byte_of(h.e_shentsize as u64, 2, i - (34 + 3 * a), little)
    } else if i < 38 + 3 * a {
        byte_of(h.e_shnum as u64, 2, i - (36 + 3 * a), little)
    } else {
        byte_of(h.e_shstrndx as u64, 2, i - (38 + 3 * a), little)
    }
}

/// The image of header `h` at its width, little-endian when `little` holds.
pub open spec fn encode_header(h: ElfHeader, little: bool) -> Seq<u8> {
    Seq::new(header_size(h.width) as nat, |i: int| header_byte(h, little, i))
}

/// Whether every address and offset field of `h` fits its width.
pub open spec fn fits_width(h: ElfHeader) -> bool {
    &&& h.width.spec_fit(h.e_entry) == h.e_entry
    &&& h.width.spec_fit(h.e_phoff) == h.e_phoff
    &&& h.width.spec_fit(h.e_shoff) == h.e_shoff
}

proof fn lemma_read_addr_encoded(s: Seq<u8>, i: int, v: u64, width: AddressWidth, little: bool)
    requires
        width.spec_fit(v) == v,
        encodes(s, i, width.spec_addr_size(), v, little),
    ensures
        addr_at(s, i, width, little) == v,
{
    match width {
        AddressWidth::Elf32 => {
            assert((v & 0xffff_ffffu64) == v ==> v <= 0xffff_ffff) by (bit_vector);
            lemma_read32_encoded(s, i, v, little);
        },
        AddressWidth::Elf64 => {
            lemma_read64_encoded(s, i, v, little);
        },
    }
}

/// Decoding the image of a header gives the header back, with the class and
/// encoding bytes of the image and the converter it was decoded with.
pub proof fn lemma_header_round_trip(h: ElfHeader, little: bool, converter: Converter)
    requires
        fits_width(h),
    ensures
        decode_header(encode_header(h, little), h.width, converter, little) == (ElfHeader {
            converter,
            ei_class: encode_header(h, little)[4],
            ei_data: encode_header(h, little)[5],
            ..h
        }),
{
    let s = encode_header(h, little);
    let a = h.width.spec_addr_size();
    let w = h.width;
    assert(encodes(s, 16, 2, h.e_type as u64, little));
    lemma_read16_encoded(s, 16, h.e_type, little);
    assert(encodes(s, 18, 2, h.e_machine as u64, little));
    lemma_read16_encoded(s, 18, h.e_machine, little);
    assert(encodes(s, 20, 4, h.e_version as u64, little));
    lemma_read32_encoded(s, 20, h.e_version as u64, little);
    assert(encodes(s, 24, a, h.e_entry, little));
    lemma_read_addr_encoded(s, 24, h.e_entry, w, little);
    assert(encodes(s, 24 + a, a, h.e_phoff, little));
    lemma_read_addr_encoded(s, 24 + a, h.e_phoff, w, little);
    assert(encodes(s, 24 + 2 * a, a, h.e_shoff, little));
    lemma_read_addr_encoded(s, 24 + 2 * a, h.e_shoff, w, little);
    assert(encodes(s, 24 + 3 * a, 4, h.e_flags as u64, little));
    lemma_read32_encoded(s, 24 + 3 * a, h.e_flags as u64, little);
    assert(encodes(s, 28 + 3 * a, 2, h.e_ehsize as u64, little));
    lemma_read16_encoded(s, 28 + 3 * a, h.e_ehsize, little);
    assert(encodes(s, 30 + 3 * a, 2, h.e_phentsize as u64, little));
    lemma_read16_encoded(s, 30 + 3 * a, h.e_phentsize, little);
    assert(encodes(s, 32 + 3 * a, 2, h.e_phnum as u64, little));
    lemma_read16_encoded(s, 32 + 3 * a, h.e_phnum, little);
    assert(encodes(s, 34 + 3 * a, 2, h.e_shentsize as u64, little));
    lemma_read16_encoded(s, 34 + 3 * a, h.e_shentsize, little);
    assert(encodes(s, 36 + 3 * a, 2, h.e_shnum as u64, little));
    lemma_read16_encoded(s, 36 + 3 * a, h.e_shnum, little);
    assert(encodes(s, 38 + 3 * a, 2, h.e_shstrndx as u64, little));
    lemma_read16_encoded(s, 38 + 3 * a, h.e_shstrndx, little);
}

impl ElfHeader {
    /// A header of the given width, bound to `converter`, with every field zero.
    pub fn new(width: AddressWidth, converter: Converter) -> (r: ElfHeader)
        ensures
            r == empty_header(width, converter),
    {
        ElfHeader {
            width,
            converter,
            ei_class: 0,
            ei_data: 0,
            ei_version: 0,
            ei_osabi: 0,
            ei_abiversion: 0,
            e_type: 0,
            e_machine: 0,
            e_version: 0,
            e_entry: 0,
            e_phoff: 0,
            e_shoff: 0,
            e_flags: 0,
            e_ehsize: 0,
            e_phentsize: 0,
            e_phnum: 0,
            e_shentsize: 0,
            e_shnum: 0,
            e_shstrndx: 0,
        }
    }

    /// Binds the converter used by the next load.
    pub fn set_converter(&mut self, converter: &Converter)
        ensures
            *final(self) == (ElfHeader { converter: *converter, ..*old(self) }),
    {
        self.converter = *converter;
    }

    /// Reads an address or offset field at `i` in the file's order.
    fn read_addr(&self, data: &[u8], i: usize, host_little: bool) -> (r: u64)
        requires
            i + self.width.spec_addr_size() <= data@.len(),
        ensures
            r == addr_at(data@, i as int, self.width, host_little != self.converter.is_needed),
    {
        match self.width {
            AddressWidth::Elf32 => self.converter.read32(data, i, host_little) as u64,
            AddressWidth::Elf64 => self.converter.read64(data, i, host_little),
        }
    }
}

impl Load for ElfHeader {
    open spec fn spec_record_size(&self) -> int {
        header_size(self.width)
    }

    open spec fn spec_loaded(&self, data: Seq<u8>, host_little: bool) -> ElfHeader {
        decode_header(data, self.width, self.converter, host_little != self.converter.is_needed)
    }

    fn load(&mut self, data: &[u8], host_little: bool) -> (r: Result<(), LoadError>) {
        let size = match self.width {
            AddressWidth::Elf32 => ELF32_HEADER_SIZE,
            AddressWidth::Elf64 => ELF64_HEADER_SIZE,
        };
        if data.len() < size {
            return Err(LoadError::UnexpectedEof);
        }
        let a = self.width.addr_size();
        let c = self.converter;
        self.ei_class = data[4];
        self.ei_data = data[5];
        self.ei_version = data[6];
        self.ei_osabi = data[7];
        self.ei_abiversion = data[8];
        self.e_type = c.read16(data, 16, host_little);
        self.e_machine = c.read16(data, 18, host_little);
        self.e_version = c.read32(data, 20, host_little);
        self.e_entry = self.read_addr(data, 24, host_little);
        self.e_phoff = self.read_addr(data, 24 + a, host_little);
        self.e_shoff = self.read_addr(data, 24 + 2 * a, host_little);
        self.e_flags = c.read32(data, 24 + 3 * a, host_little);
        self.e_ehsize = c.read16(data, 28 + 3 * a, host_little);
        self.e_phentsize = c.read16(data, 30 + 3 * a, host_little);
        self.e_phnum = c.read16(data, 32 + 3 * a, host_little);
        self.e_shentsize = c.read16(data, 34 + 3 * a, host_little);
        self.e_shnum = c.read16(data, 36 + 3 * a, host_little);
        self.e_shstrndx = c.read16(data, 38 + 3 * a, host_little);
        Ok(())
    }
}

} // verus!
