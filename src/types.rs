//! ELF constants, scalar type names, the address-width choice and the errors
//! of a load.

use vstd::prelude::*;

verus! {

/// Unsigned 16-bit ELF scalar.
pub type ElfHalf = u16;

/// Unsigned 32-bit ELF scalar.
pub type ElfWord = u32;

/// Unsigned 64-bit ELF scalar.
pub type ElfXword = u64;

/// Address in a 32-bit image.
pub type Elf32Addr = u32;

/// File offset in a 32-bit image.
pub type Elf32Off = u32;

/// Address in a 64-bit image.
pub type Elf64Addr = u64;

/// File offset in a 64-bit image.
pub type Elf64Off = u64;

/// Length of the identification prefix.
pub const EI_NIDENT: usize = 16;

/// Positions within the identification prefix.
pub const EI_MAG0: usize = 0;
pub const EI_MAG1: usize = 1;
pub const EI_MAG2: usize = 2;
pub const EI_MAG3: usize = 3;
pub const EI_CLASS: usize = 4;
pub const EI_DATA: usize = 5;
pub const EI_VERSION: usize = 6;
pub const EI_OSABI: usize = 7;
pub const EI_ABIVERSION: usize = 8;

/// The four signature bytes: 0x7F, 'E', 'L', 'F'.
pub const ELFMAG0: u8 = 0x7F;
pub const ELFMAG1: u8 = 0x45;
pub const ELFMAG2: u8 = 0x4C;
pub const ELFMAG3: u8 = 0x46;

/// Class selector values.
pub const ELFCLASSNONE: u8 = 0;
pub const ELFCLASS32: u8 = 1;
pub const ELFCLASS64: u8 = 2;

/// Data-encoding selector values.
pub const ELFDATANONE: u8 = 0;
pub const ELFDATA2LSB: u8 = 1;
pub const ELFDATA2MSB: u8 = 2;

/// Object file types.
pub const ET_NONE: u16 = 0;
pub const ET_REL: u16 = 1;
pub const ET_EXEC: u16 = 2;
pub const ET_DYN: u16 = 3;
pub const ET_CORE: u16 = 4;

/// Byte size of a 32-bit file header.
pub const ELF32_HEADER_SIZE: usize = 52;

/// Byte size of a 64-bit file header.
pub const ELF64_HEADER_SIZE: usize = 64;

/// Byte size of a 32-bit section-table entry.
pub const ELF32_SECTION_SIZE: usize = 40;

/// Byte size of a 64-bit section-table entry.
pub const ELF64_SECTION_SIZE: usize = 64;

/// The width of address and offset fields, chosen once per file.
#[derive(Clone, Copy, Debug, PartialEq, Eq, Structural)]
pub enum AddressWidth {
    Elf32,
    Elf64,
}

impl AddressWidth {
    /// Width in bytes of an address or offset field.
    pub open spec fn spec_addr_size(self) -> int {
        match self {
            AddressWidth::Elf32 => 4,
            AddressWidth::Elf64 => 8,
        }
    }

    /// What an address field of this width keeps of a 64-bit value.
    pub open spec fn spec_fit(self, v: u64) -> u64 {
        match self {
            AddressWidth::Elf32 => v & 0xffff_ffffu64,
            AddressWidth::Elf64 => v,
        }
    }

    /// Width in bytes of an address or offset field.
    pub fn addr_size(&self) -> (r: usize)
        ensures
            r == self.spec_addr_size(),
    {
        match self {
            AddressWidth::Elf32 => 4,
            AddressWidth::Elf64 => 8,
        }
    }

    /// Keeps of `v` what an address field of this width can hold.
    pub fn fit(&self, v: u64) -> (r: u64)
        ensures
            r == self.spec_fit(v),
    {
        match self {
            AddressWidth::Elf32 => v & 0xffff_ffffu64,
            AddressWidth::Elf64 => v,
        }
    }
}

/// Why an image is not one this library understands.
#[derive(Clone, Copy, Debug, PartialEq, Eq, Structural)]
pub enum FormatError {
    /// The first four bytes are not the ELF signature.
    BadMagic,
    /// The class byte is neither 32-bit nor 64-bit.
    UnknownClass,
    /// The encoding byte is neither little- nor big-endian.
    UnknownEncoding,
}

/// Why a load failed.
#[derive(Clone, Copy, Debug, PartialEq, Eq, Structural)]
pub enum LoadError {
    /// The identification prefix is not acceptable.
    Format(FormatError),
    /// Fewer bytes are available than the record needs.
    UnexpectedEof,
}

} // verus!
