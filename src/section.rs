//! Section-table entries: the access capability every section offers and
//! the fixed-layout record that implements it.

use vstd::prelude::*;

use crate::header::{addr_at, Load};
use crate::types::{
    AddressWidth, Elf64Addr, Elf64Off, ElfWord, ElfXword, LoadError, ELF32_SECTION_SIZE,
    ELF64_SECTION_SIZE,
};
use crate::utils::{u32_at, Converter};

verus! {

/// The numeric fields of a section-table entry, decoded. Fields that are
/// 32 bits wide in a 32-bit image hold zero-extended values.
#[derive(Clone, Copy, Debug, PartialEq, Eq, Structural)]
pub struct SectionEntry {
    pub width: AddressWidth,
    pub converter: Converter,
    pub sh_name: u32,
    pub sh_type: u32,
    pub sh_flags: u64,
    pub sh_addr: u64,
    pub sh_offset: u64,
    pub sh_size: u64,
    pub sh_link: u32,
    pub sh_info: u32,
    pub sh_addralign: u64,
    pub sh_entsize: u64,
}

/// Byte size of a section-table entry of the given width.
pub open spec fn section_size(width: AddressWidth) -> int {
    match width {
        AddressWidth::Elf32 => 40,
        AddressWidth::Elf64 => 64,
    }
}

/// The entry laid out in `data` at the given width, multi-byte fields read
/// little-endian when `little` holds.
pub open spec fn decode_section(
    data: Seq<u8>,
    width: AddressWidth,
    converter: Converter,
    little: bool,
) -> SectionEntry {
    let a = width.spec_addr_size();
    SectionEntry {
        width,
        converter,
        sh_name: u32_at(data, 0, little),
        sh_type: u32_at(data, 4, little),
        sh_flags: addr_at(data, 8, width, little),
        sh_addr: addr_at(data, 8 + a, width, little),
        sh_offset: addr_at(data, 8 + 2 * a, width, little),
        sh_size: addr_at(data, 8 + 3 * a, width, little),
        sh_link: u32_at(data, 8 + 4 * a, little),
        sh_info: u32_at(data, 12 + 4 * a, little),
        sh_addralign: addr_at(data, 16 + 4 * a, width, little),
        sh_entsize: addr_at(data, 16 + 5 * a, width, little),
    }
}

/// Read and write access to the fields of a section.
pub trait ElfSectionAccessTrait {
    /// The section's name text.
    spec fn spec_name(&self) -> Seq<char>;

    /// The section's numeric fields and its width and converter.
    spec fn spec_entry(&self) -> SectionEntry;

    /// The section's name text.
    fn get_name(&self) -> (r: String)
        ensures
            r@ == self.spec_name(),
    ;

    /// Sets the section's name text.
    fn set_name(&mut self, value: String)
        ensures
            final(self).spec_name() == value@,
            final(self).spec_entry() == old(self).spec_entry(),
    ;

    /// The section type.
    fn get_type(&self) -> (r: ElfWord)
        ensures
            r == self.spec_entry().sh_type,
    ;

    /// Sets the section type.
    fn set_type(&mut self, value: ElfWord)
        ensures
            final(self).spec_name() == old(self).spec_name(),
            final(self).spec_entry() == (SectionEntry { sh_type: value, ..old(self).spec_entry() }),
    ;

    /// The section flags.
    fn get_flags(&self) -> (r: ElfXword)
        ensures
            r == self.spec_entry().sh_flags,
    ;

    /// Sets the section flags. A 32-bit section keeps the low 32 bits.
    fn set_flags(&mut self, value: ElfXword)
        ensures
            final(self).spec_name() == old(self).spec_name(),
            final(self).spec_entry() == (SectionEntry {
                sh_flags: old(self).spec_entry().width.spec_fit(value),
                ..old(self).spec_entry()
            }),
    ;

    /// Extra information whose meaning depends on the section type.
    fn get_info(&self) -> (r: ElfWord)
        ensures
            r == self.spec_entry().sh_info,
    ;

    /// Sets the extra information.
    fn set_info(&mut self, value: ElfWord)
        ensures
            final(self).spec_name() == old(self).spec_name(),
            final(self).spec_entry() == (SectionEntry { sh_info: value, ..old(self).spec_entry() }),
    ;

    /// Index of a related section.
    fn get_link(&self) -> (r: ElfWord)
        ensures
            r == self.spec_entry().sh_link,
    ;

    /// Sets the index of a related section.
    fn set_link(&mut self, value: ElfWord)
        ensures
            final(self).spec_name() == old(self).spec_name(),
            final(self).spec_entry() == (SectionEntry { sh_link: value, ..old(self).spec_entry() }),
    ;

    /// Required alignment.
    fn get_addr_align(&self) -> (r: ElfXword)
        ensures
            r == self.spec_entry().sh_addralign,
    ;

    /// Sets the required alignment. A 32-bit section keeps the low 32 bits.
    fn set_addr_align(&mut self, value: ElfXword)
        ensures
            final(self).spec_name() == old(self).spec_name(),
            final(self).spec_entry() == (SectionEntry {
                sh_addralign: old(self).spec_entry().width.spec_fit(value),
                ..old(self).spec_entry()
            }),
    ;

    /// Size of one entry, for table-shaped sections.
    fn get_entry_size(&self) -> (r: ElfXword)
        ensures
            r == self.spec_entry().sh_entsize,
    ;

    /// Sets the size of one entry. A 32-bit section keeps the low 32 bits.
    fn set_entry_size(&mut self, value: ElfXword)
        ensures
            final(self).spec_name() == old(self).spec_name(),
            final(self).spec_entry() == (SectionEntry {
                sh_entsize: old(self).spec_entry().width.spec_fit(value),
                ..old(self).spec_entry()
            }),
    ;

    /// Virtual address of the section in memory.
    fn get_address(&self) -> (r: Elf64Addr)
        ensures
            r == self.spec_entry().sh_addr,
    ;

    /// Sets the virtual address. A 32-bit section keeps the low 32 bits.
    fn set_address(&mut self, value: Elf64Addr)
        ensures
            final(self).spec_name() == old(self).spec_name(),
            final(self).spec_entry() == (SectionEntry {
                sh_addr: old(self).spec_entry().width.spec_fit(value),
                ..old(self).spec_entry()
            }),
    ;

    /// Size of the section's contents in the file.
    fn get_size(&self) -> (r: ElfXword)
        ensures
            r == self.spec_entry().sh_size,
    ;

    /// Sets the size. A 32-bit section keeps the low 32 bits.
    fn set_size(&mut self, value: ElfXword)
        ensures
            final(self).spec_name() == old(self).spec_name(),
            final(self).spec_entry() == (SectionEntry {
                sh_size: old(self).spec_entry().width.spec_fit(value),
                ..old(self).spec_entry()
            }),
    ;

    /// Offset of the name in the section-name string table.
    fn get_name_string_offset(&self) -> (r: ElfWord)
        ensures
            r == self.spec_entry().sh_name,
    ;

    /// Sets the offset of the name in the section-name string table.
    fn set_name_string_offset(&mut self, value: ElfWord)
        ensures
            final(self).spec_name() == old(self).spec_name(),
            final(self).spec_entry() == (SectionEntry { sh_name: value, ..old(self).spec_entry() }),
    ;

    /// File offset of the section's contents.
    fn get_offset(&self) -> (r: Elf64Off)
        ensures
            r == self.spec_entry().sh_offset,
    ;

    /// Sets the file offset. A 32-bit section keeps the low 32 bits.
    fn set_offset(&mut self, value: Elf64Off)
        ensures
            final(self).spec_name() == old(self).spec_name(),
            final(self).spec_entry() == (SectionEntry {
                sh_offset: old(self).spec_entry().width.spec_fit(value),
                ..old(self).spec_entry()
            }),
    ;

    /// Binds the converter used by the next load.
    fn set_converter(&mut self, converter: &Converter)
        ensures
            final(self).spec_name() == old(self).spec_name(),
            final(self).spec_entry() == (SectionEntry {
                converter: *converter,
                ..old(self).spec_entry()
            }),
    ;
}

/// A section: field access and loading from the section table.
pub trait ElfSectionTrait: ElfSectionAccessTrait + Load {

}

/// One section-table entry with its name text.
#[derive(Debug)]
pub struct ElfSection {
    pub sh_name: String,
    pub entry: SectionEntry,
}

impl ElfSection {
    /// A section of the given width, bound to `converter`, with an empty name
    /// and every field zero.
    pub fn new(width: AddressWidth, converter: Converter) -> (r: ElfSection)
        ensures
            r.sh_name@ == Seq::<char>::empty(),
            r.entry == (SectionEntry {
                width,
                converter,
                sh_name: 0,
                sh_type: 0,
                sh_flags: 0,
                sh_addr: 0,
                sh_offset: 0,
                sh_size: 0,
                sh_link: 0,
                sh_info: 0,
                sh_addralign: 0,
                sh_entsize: 0,
            }),
    {
        ElfSection {
            sh_name: String::new(),
            entry: SectionEntry {
                width,
                converter,
                sh_name: 0,
                sh_type: 0,
                sh_flags: 0,
                sh_addr: 0,
                sh_offset: 0,
                sh_size: 0,
                sh_link: 0,
                sh_info: 0,
                sh_addralign: 0,
                sh_entsize: 0,
            },
        }
    }

    /// Reads a field of the entry's address width at `i` in the file's order.
    fn read_wide(&self, data: &[u8], i: usize, host_little: bool) -> (r: u64)
        requires
            i + self.entry.width.spec_addr_size() <= data@.len(),
        ensures
            r == addr_at(
                data@,
                i as int,
                self.entry.width,
                host_little != self.entry.converter.is_needed,
            ),
    {
        match self.entry.width {
            AddressWidth::Elf32 => self.entry.converter.read32(data, i, host_little) as u64,
            AddressWidth::Elf64 => self.entry.converter.read64(data, i, host_little),
        }
    }
}

impl ElfSectionAccessTrait for ElfSection {
    open spec fn spec_name(&self) -> Seq<char> {
        self.sh_name@
    }

    open spec fn spec_entry(&self) -> SectionEntry {
        self.entry
    }

    fn get_name(&self) -> (r: String) {
        self.sh_name.clone()
    }

    fn set_name(&mut self, value: String) {
        self.sh_name = value;
    }

    fn get_type(&self) -> (r: ElfWord) {
        self.entry.sh_type
    }

    fn set_type(&mut self, value: ElfWord) {
        self.entry.sh_type = value;
    }

    fn get_flags(&self) -> (r: ElfXword) {
        self.entry.sh_flags
    }

    fn set_flags(&mut self, value: ElfXword) {
        self.entry.sh_flags = self.entry.width.fit(value);
    }

    fn get_info(&self) -> (r: ElfWord) {
        self.entry.sh_info
    }

    fn set_info(&mut self, value: ElfWord) {
        self.entry.sh_info = value;
    }

    fn get_link(&self) -> (r: ElfWord) {
        self.entry.sh_link
    }

    fn set_link(&mut self, value: ElfWord) {
        self.entry.sh_link = value;
    }

    fn get_addr_align(&self) -> (r: ElfXword) {
        self.entry.sh_addralign
    }

    fn set_addr_align(&mut self, value: ElfXword) {
        self.entry.sh_addralign = self.entry.width.fit(value);
    }

    fn get_entry_size(&self) -> (r: ElfXword) {
        self.entry.sh_entsize
    }

    fn set_entry_size(&mut self, value: ElfXword) {
        self.entry.sh_entsize = self.entry.width.fit(value);
    }

    fn get_address(&self) -> (r: Elf64Addr) {
        self.entry.sh_addr
    }

    fn set_address(&mut self, value: Elf64Addr) {
        self.entry.sh_addr = self.entry.width.fit(value);
    }

    fn get_size(&self) -> (r: ElfXword) {
        self.entry.sh_size
    }

    fn set_size(&mut self, value: ElfXword) {
        self.entry.sh_size = self.entry.width.fit(value);
    }

    fn get_name_string_offset(&self) -> (r: ElfWord) {
        self.entry.sh_name
    }

    fn set_name_string_offset(&mut self, value: ElfWord) {
        self.entry.sh_name = value;
    }

    fn get_offset(&self) -> (r: Elf64Off) {
        self.entry.sh_offset
    }

    fn set_offset(&mut self, value: Elf64Off) {
        self.entry.sh_offset = self.entry.width.fit(value);
    }

    fn set_converter(&mut self, converter: &Converter) {
        self.entry.converter = *converter;
    }
}

impl Load for ElfSection {
    open spec fn spec_record_size(&self) -> int {
        section_size(self.entry.width)
    }

    /// The name text is kept; the numeric fields come from `data`.
    open spec fn spec_loaded(&self, data: Seq<u8>, host_little: bool) -> ElfSection {
        ElfSection {
            sh_name: self.sh_name,
            entry: decode_section(
                data,
                self.entry.width,
                self.entry.converter,
                host_little != self.entry.converter.is_needed,
            ),
        }
    }

    fn load(&mut self, data: &[u8], host_little: bool) -> (r: Result<(), LoadError>) {
        let size = match self.entry.width {
            AddressWidth::Elf32 => ELF32_SECTION_SIZE,
            AddressWidth::Elf64 => ELF64_SECTION_SIZE,
        };
        if data.len() < size {
            return Err(LoadError::UnexpectedEof);
        }
        let a = self.entry.width.addr_size();
        let c = self.entry.converter;
        self.entry.sh_name = c.read32(data, 0, host_little);
        self.entry.sh_type = c.read32(data, 4, host_little);
        self.entry.sh_flags = self.read_wide(data, 8, host_little);
        self.entry.sh_addr = self.read_wide(data, 8 + a, host_little);
        self.entry.sh_offset = self.read_wide(data, 8 + 2 * a, host_little);
        self.entry.sh_size = self.read_wide(data, 8 + 3 * a, host_little);
        self.entry.sh_link = c.read32(data, 8 + 4 * a, host_little);
        self.entry.sh_info = c.read32(data, 12 + 4 * a, host_little);
        self.entry.sh_addralign = self.read_wide(data, 16 + 4 * a, host_little);
        self.entry.sh_entsize = self.read_wide(data, 16 + 5 * a, host_little);
        Ok(())
    }
}

impl ElfSectionTrait for ElfSection {

}

} // verus!
