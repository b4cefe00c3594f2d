//! The fixed-layout records of the ELF ABI and the enumerated fields they
//! carry.  Every record admits every byte pattern: enumerated fields are
//! stored in their unchecked form, which keeps the raw integer.

use crate::utils::{
    read_u16, read_u32, read_u64, read_u8, spec_u16_at, spec_u32_at, spec_u64_at, TransmuteSafe,
};
use vstd::prelude::*;

verus! {

/// The word width of an ELF file: 32-bit or 64-bit.
#[derive(Copy, Clone, Debug, PartialEq, Eq, Structural)]
pub enum EIClass {
    Elf32Bit,
    Elf64Bit,
}

/// The raw value a class stands for.
pub open spec fn spec_class_raw(k: EIClass) -> u8 {
    match k {
        EIClass::Elf32Bit => 0x01,
        EIClass::Elf64Bit => 0x02,
    }
}

impl EIClass {
    /// The integer discriminant of this class in the ELF ABI.
    pub fn raw(&self) -> (r: u8)
        ensures
            r == spec_class_raw(*self),
    {
        match self {
            EIClass::Elf32Bit => 0x01,
            EIClass::Elf64Bit => 0x02,
        }
    }
}

/// A class byte as read from the file, recognised or not.
#[derive(Copy, Clone, Debug, PartialEq, Eq, Structural)]
pub struct EIClassUnchecked {
    pub raw: u8,
}

/// The byte order of an ELF file: little- or big-endian.
#[derive(Copy, Clone, Debug, PartialEq, Eq, Structural)]
pub enum EIData {
    LittleEndian,
    BigEndian,
}

/// The raw value a data encoding stands for.
pub open spec fn spec_data_raw(k: EIData) -> u8 {
    match k {
        EIData::LittleEndian => 0x01,
        EIData::BigEndian => 0x02,
    }
}

impl EIData {
    /// The integer discriminant of this data encoding in the ELF ABI.
    pub fn raw(&self) -> (r: u8)
        ensures
            r == spec_data_raw(*self),
    {
        match self {
            EIData::LittleEndian => 0x01,
            EIData::BigEndian => 0x02,
        }
    }
}

/// A data-encoding byte as read from the file, recognised or not.
#[derive(Copy, Clone, Debug, PartialEq, Eq, Structural)]
pub struct EIDataUnchecked {
    pub raw: u8,
}

/// The OS/ABI an ELF file was produced for.
#[derive(Copy, Clone, Debug, PartialEq, Eq, Structural)]
pub enum EIOsAbi {
    SystemV,
    Linux,
}

/// The raw value an OS/ABI stands for.
pub open spec fn spec_osabi_raw(k: EIOsAbi) -> u8 {
    match k {
        EIOsAbi::SystemV => 0x00,
        EIOsAbi::Linux => 0x03,
    }
}

impl EIOsAbi {
    /// The integer discriminant of this OS/ABI in the ELF ABI.
    pub fn raw(&self) -> (r: u8)
        ensures
            r == spec_osabi_raw(*self),
    {
        match self {
            EIOsAbi::SystemV => 0x00,
            EIOsAbi::Linux => 0x03,
        }
    }
}

/// An OS/ABI byte as read from the file, recognised or not.
#[derive(Copy, Clone, Debug, PartialEq, Eq, Structural)]
pub struct EIOsAbiUnchecked {
    pub raw: u8,
}

/// The object-file type.
#[derive(Copy, Clone, Debug, PartialEq, Eq, Structural)]
pub enum EType {
    NoType,
    Rel,
    Exec,
    Dyn,
    Core,
}

/// The raw value a file type stands for.
pub open spec fn spec_etype_raw(k: EType) -> u16 {
    match k {
        EType::NoType => 0x00,
        EType::Rel => 0x01,
        EType::Exec => 0x02,
        EType::Dyn => 0x03,
        EType::Core => 0x04,
    }
}

impl EType {
    /// The integer discriminant of this file type in the ELF ABI.
    pub fn raw(&self) -> (r: u16)
        ensures
            r == spec_etype_raw(*self),
    {
        match self {
            EType::NoType => 0x00,
            EType::Rel => 0x01,
            EType::Exec => 0x02,
            EType::Dyn => 0x03,
            EType::Core => 0x04,
        }
    }
}

/// A file-type field as read from the file, recognised or not.
#[derive(Copy, Clone, Debug, PartialEq, Eq, Structural)]
pub struct ETypeUnchecked {
    pub raw: u16,
}

/// The machine architecture an ELF file targets.
#[derive(Copy, Clone, Debug, PartialEq, Eq, Structural)]
pub enum EMachine {
    X86,
    X86_64,
    Aarch64,
}

/// The raw value a machine stands for.
pub open spec fn spec_machine_raw(k: EMachine) -> u16 {
    match k {
        EMachine::X86 => 0x03,
        EMachine::X86_64 => 0x3E,
        EMachine::Aarch64 => 0xB7,
    }
}

impl EMachine {
    /// The integer discriminant of this machine in the ELF ABI.
    pub fn raw(&self) -> (r: u16)
        ensures
            r == spec_machine_raw(*self),
    {
        match self {
            EMachine::X86 => 0x03,
            EMachine::X86_64 => 0x3E,
            EMachine::Aarch64 => 0xB7,
        }
    }
}

/// A machine field as read from the file, recognised or not.
#[derive(Copy, Clone, Debug, PartialEq, Eq, Structural)]
pub struct EMachineUnchecked {
    pub raw: u16,
}

/// The type of a program header.
#[derive(Copy, Clone, Debug, PartialEq, Eq, Structural)]
pub enum PType {
    Null,
    Load,
    Dynamic,
    Interp,
    Note,
    Shlib,
    Phdr,
    Tls,
    GnuEhFrame,
    GnuStack,
    GnuRelro,
}

/// The raw value a program-header type stands for.
pub open spec fn spec_ptype_raw(k: PType) -> u32 {
    match k {
        PType::Null => 0x00000000,
        PType::Load => 0x00000001,
        PType::Dynamic => 0x00000002,
        PType::Interp => 0x00000003,
        PType::Note => 0x00000004,
        PType::Shlib => 0x00000005,
        PType::Phdr => 0x00000006,
        PType::Tls => 0x00000007,
        PType::GnuEhFrame => 0x6474e550,
        PType::GnuStack => 0x6474e551,
        PType::GnuRelro => 0x6474e552,
    }
}

impl PType {
    /// The integer discriminant of this program-header type in the ELF ABI.
    pub fn raw(&self) -> (r: u32)
        ensures
            r == spec_ptype_raw(*self),
    {
        match self {
            PType::Null => 0x00000000,
            PType::Load => 0x00000001,
            PType::Dynamic => 0x00000002,
            PType::Interp => 0x00000003,
            PType::Note => 0x00000004,
            PType::Shlib => 0x00000005,
            PType::Phdr => 0x00000006,
            PType::Tls => 0x00000007,
            PType::GnuEhFrame => 0x6474e550,
            PType::GnuStack => 0x6474e551,
            PType::GnuRelro => 0x6474e552,
        }
    }
}

/// A program-header type as read from the file, recognised or not.
#[derive(Copy, Clone, Debug, PartialEq, Eq, Structural)]
pub struct PTypeUnchecked {
    pub raw: u32,
}

/// The type of a section header.
#[derive(Copy, Clone, Debug, PartialEq, Eq, Structural)]
pub enum ShType {
    Null,
    Progbits,
    Symtab,
    Strtab,
    Rela,
    Hash,
    Dynamic,
    Note,
    Nobits,
    Rel,
    Shlib,
    Dynsym,
    InitArray,
    FiniArray,
    PreinitArray,
    Group,
    SymtabShndx,
    Num,
    GnuHash,
    GnuVerdef,
    GnuVerneed,
    GnuVersym,
}

/// The raw value a section-header type stands for.
pub open spec fn spec_shtype_raw(k: ShType) -> u32 {
    match k {
        ShType::Null => 0x0,
        ShType::Progbits => 0x1,
        ShType::Symtab => 0x2,
        ShType::Strtab => 0x3,
        ShType::Rela => 0x4,
        ShType::Hash => 0x5,
        ShType::Dynamic => 0x6,
        ShType::Note => 0x7,
        ShType::Nobits => 0x8,
        ShType::Rel => 0x9,
        ShType::Shlib => 0x0A,
        ShType::Dynsym => 0x0B,
        ShType::InitArray => 0x0E,
        ShType::FiniArray => 0x0F,
        ShType::PreinitArray => 0x10,
        ShType::Group => 0x11,
        ShType::SymtabShndx => 0x12,
        ShType::Num => 0x13,
        ShType::GnuHash => 0x6FFFFFF6,
        ShType::GnuVerdef => 0x6FFFFFFD,
        ShType::GnuVerneed => 0x6FFFFFFE,
        ShType::GnuVersym => 0x6FFFFFFF,
    }
}

impl ShType {
    /// The integer discriminant of this section-header type in the ELF ABI.
    pub fn raw(&self) -> (r: u32)
        ensures
            r == spec_shtype_raw(*self),
    {
        match self {
            ShType::Null => 0x0,
            ShType::Progbits => 0x1,
            ShType::Symtab => 0x2,
            ShType::Strtab => 0x3,
            ShType::Rela => 0x4,
            ShType::Hash => 0x5,
            ShType::Dynamic => 0x6,
            ShType::Note => 0x7,
            ShType::Nobits => 0x8,
            ShType::Rel => 0x9,
            ShType::Shlib => 0x0A,
            ShType::Dynsym => 0x0B,
            ShType::InitArray => 0x0E,
            ShType::FiniArray => 0x0F,
            ShType::PreinitArray => 0x10,
            ShType::Group => 0x11,
            ShType::SymtabShndx => 0x12,
            ShType::Num => 0x13,
            ShType::GnuHash => 0x6FFFFFF6,
            ShType::GnuVerdef => 0x6FFFFFFD,
            ShType::GnuVerneed => 0x6FFFFFFE,
            ShType::GnuVersym => 0x6FFFFFFF,
        }
    }
}

/// A section-header type as read from the file, recognised or not.
#[derive(Copy, Clone, Debug, PartialEq, Eq, Structural)]
pub struct ShTypeUnchecked {
    pub raw: u32,
}

/// The 16-byte identification block at the start of every ELF file.
#[derive(Debug, Clone, PartialEq)]
pub struct EIdent {
    pub ei_mag: [u8; 4],
    pub ei_class: EIClassUnchecked,
    pub ei_data: EIDataUnchecked,
    pub ei_version: u8,
    pub ei_osabi: EIOsAbiUnchecked,
    pub ei_abiversion: u8,
    pub ei_pad: [u8; 7],
}

/// `id` holds exactly what the 16 bytes `s` encode.
pub open spec fn spec_eident_decodes(id: EIdent, s: Seq<u8>) -> bool {
    &&& id.ei_mag@ == s.subrange(0, 4)
    &&& id.ei_class == (EIClassUnchecked { raw: s[4] })
    &&& id.ei_data == (EIDataUnchecked { raw: s[5] })
    &&& id.ei_version == s[6]
    &&& id.ei_osabi == (EIOsAbiUnchecked { raw: s[7] })
    &&& id.ei_abiversion == s[8]
    &&& id.ei_pad@ == s.subrange(9, 16)
}

fn eident_from_bytes(buf: &[u8], off: usize) -> (r: EIdent)
    requires
        off + 16 <= buf@.len(),
    ensures
        spec_eident_decodes(r, buf@.subrange(off as int, off + 16)),
{
    let l = buf.len();
    let r = EIdent {
        ei_mag: [
            read_u8(buf, off),
            read_u8(buf, off + 1),
            read_u8(buf, off + 2),
            read_u8(buf, off + 3),
        ],
        ei_class: EIClassUnchecked { raw: read_u8(buf, off + 4) },
        ei_data: EIDataUnchecked { raw: read_u8(buf, off + 5) },
        ei_version: read_u8(buf, off + 6),
        ei_osabi: EIOsAbiUnchecked { raw: read_u8(buf, off + 7) },
        ei_abiversion: read_u8(buf, off + 8),
        ei_pad: [
            read_u8(buf, off + 9),
            read_u8(buf, off + 10),
            read_u8(buf, off + 11),
            read_u8(buf, off + 12),
            read_u8(buf, off + 13),
            read_u8(buf, off + 14),
            read_u8(buf, off + 15),
        ],
    };
    proof {
        let s = buf@.subrange(off as int, off + 16);
        assert(r.ei_mag@ =~= s.subrange(0, 4));
        assert(r.ei_pad@ =~= s.subrange(9, 16));
    }
    r
}

/// The class-independent head of the ELF header.
#[derive(Debug, Clone, PartialEq)]
pub struct ElfNonArchDep {
    pub e_ident: EIdent,
    pub e_type: ETypeUnchecked,
    pub e_machine: EMachineUnchecked,
    pub e_version: u32,
}

impl TransmuteSafe for ElfNonArchDep {
    open spec fn size_spec() -> int {
        24
    }

    open spec fn align_spec() -> int {
        4
    }

    open spec fn decodes(&self, s: Seq<u8>) -> bool {
        &&& spec_eident_decodes(self.e_ident, s.subrange(0, 16))
        &&& self.e_type == (ETypeUnchecked { raw: spec_u16_at(s, 16) })
        &&& self.e_machine == (EMachineUnchecked { raw: spec_u16_at(s, 18) })
        &&& self.e_version == spec_u32_at(s, 20)
    }

    fn record_size() -> usize {
        24
    }

    fn record_align() -> usize {
        4
    }

    fn from_bytes(buf: &[u8], off: usize) -> (r: Self) {
        let l = buf.len();
        let r = ElfNonArchDep {
            e_ident: eident_from_bytes(buf, off),
            e_type: ETypeUnchecked { raw: read_u16(buf, off + 16) },
            e_machine: EMachineUnchecked { raw: read_u16(buf, off + 18) },
            e_version: read_u32(buf, off + 20),
        };
        proof {
            let s = buf@.subrange(off as int, off + 24);
            assert(buf@.subrange(off as int, off + 16) =~= s.subrange(0, 16));
            assert(buf@.subrange(off + 16, off + 18) =~= s.subrange(16, 18));
            assert(buf@.subrange(off + 18, off + 20) =~= s.subrange(18, 20));
            assert(buf@.subrange(off + 20, off + 24) =~= s.subrange(20, 24));
        }
        r
    }
}

/// The entry point and table offsets of a 32-bit ELF header.
#[derive(Debug, Clone, PartialEq)]
pub struct Elf32Offs {
    pub e_entry: u32,
    pub e_phoff: u32,
    pub e_shoff: u32,
}

/// The `Elf32Offs` record the 12 bytes `s` encode.
pub open spec fn spec_elf32_offs_at(s: Seq<u8>) -> Elf32Offs {
    Elf32Offs {
        e_entry: spec_u32_at(s, 0),
        e_phoff: spec_u32_at(s, 4),
        e_shoff: spec_u32_at(s, 8),
    }
}

impl TransmuteSafe for Elf32Offs {
    open spec fn size_spec() -> int {
        12
    }

    open spec fn align_spec() -> int {
        4
    }

    open spec fn decodes(&self, s: Seq<u8>) -> bool {
        *self == spec_elf32_offs_at(s)
    }

    fn record_size() -> usize {
        12
    }

    fn record_align() -> usize {
        4
    }

    fn from_bytes(buf: &[u8], off: usize) -> (r: Self) {
        let l = buf.len();
        let r = Elf32Offs {
            e_entry: read_u32(buf, off),
            e_phoff: read_u32(buf, off + 4),
            e_shoff: read_u32(buf, off + 8),
        };
        proof {
            let s = buf@.subrange(off as int, off + 12);
            assert(buf@.subrange(off as int, off + 4) =~= s.subrange(0, 4));
            assert(buf@.subrange(off + 4, off + 8) =~= s.subrange(4, 8));
            assert(buf@.subrange(off + 8, off + 12) =~= s.subrange(8, 12));
        }
        r
    }
}

/// The entry point and table offsets of a 64-bit ELF header.
#[derive(Debug, Clone, PartialEq)]
pub struct Elf64Offs {
    pub e_entry: u64,
    pub e_phoff: u64,
    pub e_shoff: u64,
}

/// The `Elf64Offs` record the 24 bytes `s` encode.
pub open spec fn spec_elf64_offs_at(s: Seq<u8>) -> Elf64Offs {
    Elf64Offs {
        e_entry: spec_u64_at(s, 0),
        e_phoff: spec_u64_at(s, 8),
        e_shoff: spec_u64_at(s, 16),
    }
}

impl TransmuteSafe for Elf64Offs {
    open spec fn size_spec() -> int {
        24
    }

    open spec fn align_spec() -> int {
        8
    }

    open spec fn decodes(&self, s: Seq<u8>) -> bool {
        *self == spec_elf64_offs_at(s)
    }

    fn record_size() -> usize {
        24
    }

    fn record_align() -> usize {
        8
    }

    fn from_bytes(buf: &[u8], off: usize) -> (r: Self) {
        let l = buf.len();
        let r = Elf64Offs {
            e_entry: read_u64(buf, off),
            e_phoff: read_u64(buf, off + 8),
            e_shoff: read_u64(buf, off + 16),
        };
        proof {
            let s = buf@.subrange(off as int, off + 24);
            assert(buf@.subrange(off as int, off + 8) =~= s.subrange(0, 8));
            assert(buf@.subrange(off + 8, off + 16) =~= s.subrange(8, 16));
            assert(buf@.subrange(off + 16, off + 24) =~= s.subrange(16, 24));
        }
        r
    }
}

/// The class-independent tail of the ELF header: flags, declared record
/// sizes, table entry counts and the section-name string-table index.
#[derive(Debug, Clone, PartialEq)]
pub struct ElfNonArchDep2 {
    pub e_flags: u32,
    pub e_ehsize: u16,
    pub e_phentsize: u16,
    pub e_phnum: u16,
    pub e_shentsize: u16,
    pub e_shnum: u16,
    pub e_shstrndx: u16,
}

/// The `ElfNonArchDep2` record the 16 bytes `s` encode.
pub open spec fn spec_elf_tail_at(s: Seq<u8>) -> ElfNonArchDep2 {
    ElfNonArchDep2 {
        e_flags: spec_u32_at(s, 0),
        e_ehsize: spec_u16_at(s, 4),
        e_phentsize: spec_u16_at(s, 6),
        e_phnum: spec_u16_at(s, 8),
        e_shentsize: spec_u16_at(s, 10),
        e_shnum: spec_u16_at(s, 12),
        e_shstrndx: spec_u16_at(s, 14),
    }
}

impl TransmuteSafe for ElfNonArchDep2 {
    open spec fn size_spec() -> int {
        16
    }

    open spec fn align_spec() -> int {
        4
    }

    open spec fn decodes(&self, s: Seq<u8>) -> bool {
        *self == spec_elf_tail_at(s)
    }

    fn record_size() -> usize {
        16
    }

    fn record_align() -> usize {
        4
    }

    fn from_bytes(buf: &[u8], off: usize) -> (r: Self) {
        let l = buf.len();
        let r = ElfNonArchDep2 {
            e_flags: read_u32(buf, off),
            e_ehsize: read_u16(buf, off + 4),
            e_phentsize: read_u16(buf, off + 6),
            e_phnum: read_u16(buf, off + 8),
            e_shentsize: read_u16(buf, off + 10),
            e_shnum: read_u16(buf, off + 12),
            e_shstrndx: read_u16(buf, off + 14),
        };
        proof {
            let s = buf@.subrange(off as int, off + 16);
            assert(buf@.subrange(off as int, off + 4) =~= s.subrange(0, 4));
            assert(buf@.subrange(off + 4, off + 6) =~= s.subrange(4, 6));
            assert(buf@.subrange(off + 6, off + 8) =~= s.subrange(6, 8));
            assert(buf@.subrange(off + 8, off + 10) =~= s.subrange(8, 10));
            assert(buf@.subrange(off + 10, off + 12) =~= s.subrange(10, 12));
            assert(buf@.subrange(off + 12, off + 14) =~= s.subrange(12, 14));
            assert(buf@.subrange(off + 14, off + 16) =~= s.subrange(14, 16));
        }
        r
    }
}

/// A complete 32-bit ELF header.
#[derive(Debug, Clone, PartialEq)]
pub struct ElfHead32 {
    pub head: ElfNonArchDep,
    pub offs: Elf32Offs,
    pub tail: ElfNonArchDep2,
}

/// A complete 64-bit ELF header.
#[derive(Debug, Clone, PartialEq)]
pub struct ElfHead64 {
    pub head: ElfNonArchDep,
    pub offs: Elf64Offs,
    pub tail: ElfNonArchDep2,
}

/// A 64-bit program header.
#[derive(Debug, Clone, PartialEq)]
pub struct ProgHead64 {
    pub p_type: PTypeUnchecked,
    pub p_flag: u32,
    pub p_offset: u64,
    pub p_vaddr: u64,
    pub p_paddr: u64,
    pub p_filesz: u64,
    pub p_memsz: u64,
    pub p_align: u64,
}

/// The `ProgHead64` record the 56 bytes `s` encode.
pub open spec fn spec_prog_head64_at(s: Seq<u8>) -> ProgHead64 {
    ProgHead64 {
        p_type: PTypeUnchecked { raw: spec_u32_at(s, 0) },
        p_flag: spec_u32_at(s, 4),
        p_offset: spec_u64_at(s, 8),
        p_vaddr: spec_u64_at(s, 16),
        p_paddr: spec_u64_at(s, 24),
        p_filesz: spec_u64_at(s, 32),
        p_memsz: spec_u64_at(s, 40),
        p_align: spec_u64_at(s, 48),
    }
}

impl TransmuteSafe for ProgHead64 {
    open spec fn size_spec() -> int {
        56
    }

    open spec fn align_spec() -> int {
        8
    }

    open spec fn decodes(&self, s: Seq<u8>) -> bool {
        *self == spec_prog_head64_at(s)
    }

    fn record_size() -> usize {
        56
    }

    fn record_align() -> usize {
        8
    }

    fn from_bytes(buf: &[u8], off: usize) -> (r: Self) {
        let l = buf.len();
        let r = ProgHead64 {
            p_type: PTypeUnchecked { raw: read_u32(buf, off) },
            p_flag: read_u32(buf, off + 4),
            p_offset: read_u64(buf, off + 8),
            p_vaddr: read_u64(buf, off + 16),
            p_paddr: read_u64(buf, off + 24),
            p_filesz: read_u64(buf, off + 32),
            p_memsz: read_u64(buf, off + 40),
            p_align: read_u64(buf, off + 48),
        };
        proof {
            let s = buf@.subrange(off as int, off + 56);
            assert(buf@.subrange(off as int, off + 4) =~= s.subrange(0, 4));
            assert(buf@.subrange(off + 4, off + 8) =~= s.subrange(4, 8));
            assert(buf@.subrange(off + 8, off + 16) =~= s.subrange(8, 16));
            assert(buf@.subrange(off + 16, off + 24) =~= s.subrange(16, 24));
            assert(buf@.subrange(off + 24, off + 32) =~= s.subrange(24, 32));
            assert(buf@.subrange(off + 32, off + 40) =~= s.subrange(32, 40));
            assert(buf@.subrange(off + 40, off + 48) =~= s.subrange(40, 48));
            assert(buf@.subrange(off + 48, off + 56) =~= s.subrange(48, 56));
        }
        r
    }
}

/// A 32-bit program header; the flags field sits after the size fields.
#[derive(Debug, Clone, PartialEq)]
pub struct ProgHead32 {
    pub p_type: PTypeUnchecked,
    pub p_offset: u32,
    pub p_vaddr: u32,
    pub p_paddr: u32,
    pub p_filesz: u32,
    pub p_memsz: u32,
    pub p_flag: u32,
    pub p_align: u32,
}

/// The `ProgHead32` record the 32 bytes `s` encode.
pub open spec fn spec_prog_head32_at(s: Seq<u8>) -> ProgHead32 {
    ProgHead32 {
        p_type: PTypeUnchecked { raw: spec_u32_at(s, 0) },
        p_offset: spec_u32_at(s, 4),
        p_vaddr: spec_u32_at(s, 8),
        p_paddr: spec_u32_at(s, 12),
        p_filesz: spec_u32_at(s, 16),
        p_memsz: spec_u32_at(s, 20),
        p_flag: spec_u32_at(s, 24),
        p_align: spec_u32_at(s, 28),
    }
}

impl TransmuteSafe for ProgHead32 {
    open spec fn size_spec() -> int {
        32
    }

    open spec fn align_spec() -> int {
        4
    }

    open spec fn decodes(&self, s: Seq<u8>) -> bool {
        *self == spec_prog_head32_at(s)
    }

    fn record_size() -> usize {
        32
    }

    fn record_align() -> usize {
        4
    }

    fn from_bytes(buf: &[u8], off: usize) -> (r: Self) {
        let l = buf.len();
        let r = ProgHead32 {
            p_type: PTypeUnchecked { raw: read_u32(buf, off) },
            p_offset: read_u32(buf, off + 4),
            p_vaddr: read_u32(buf, off + 8),
            p_paddr: read_u32(buf, off + 12),
            p_filesz: read_u32(buf, off + 16),
            p_memsz: read_u32(buf, off + 20),
            p_flag: read_u32(buf, off + 24),
            p_align: read_u32(buf, off + 28),
        };
        proof {
            let s = buf@.subrange(off as int, off + 32);
            assert(buf@.subrange(off as int, off + 4) =~= s.subrange(0, 4));
            assert(buf@.subrange(off + 4, off + 8) =~= s.subrange(4, 8));
            assert(buf@.subrange(off + 8, off + 12) =~= s.subrange(8, 12));
            assert(buf@.subrange(off + 12, off + 16) =~= s.subrange(12, 16));
            assert(buf@.subrange(off + 16, off + 20) =~= s.subrange(16, 20));
            assert(buf@.subrange(off + 20, off + 24) =~= s.subrange(20, 24));
            assert(buf@.subrange(off + 24, off + 28) =~= s.subrange(24, 28));
            assert(buf@.subrange(off + 28, off + 32) =~= s.subrange(28, 32));
        }
        r
    }
}

/// The width-independent head of a section header.
#[derive(Debug, Clone, PartialEq)]
pub struct SectNonArchDep {
    pub sh_name: u32,
    pub sh_type: ShTypeUnchecked,
}

/// A 32-bit section header.
#[derive(Debug, Clone, PartialEq)]
pub struct SectHead32 {
    pub head: SectNonArchDep,
    pub sh_flags: u32,
    pub sh_addr: u32,
    pub sh_offset: u32,
    pub sh_size: u32,
    pub sh_link: u32,
    pub sh_info: u32,
    pub sh_addralign: u32,
    pub sh_entsize: u32,
}

/// The `SectHead32` record the 40 bytes `s` encode.
pub open spec fn spec_sect_head32_at(s: Seq<u8>) -> SectHead32 {
    SectHead32 {
        head: SectNonArchDep {
            sh_name: spec_u32_at(s, 0),
            sh_type: ShTypeUnchecked { raw: spec_u32_at(s, 4) },
        },
        sh_flags: spec_u32_at(s, 8),
        sh_addr: spec_u32_at(s, 12),
        sh_offset: spec_u32_at(s, 16),
        sh_size: spec_u32_at(s, 20),
        sh_link: spec_u32_at(s, 24),
        sh_info: spec_u32_at(s, 28),
        sh_addralign: spec_u32_at(s, 32),
        sh_entsize: spec_u32_at(s, 36),
    }
}

impl TransmuteSafe for SectHead32 {
    open spec fn size_spec() -> int {
        40
    }

    open spec fn align_spec() -> int {
        4
    }

    open spec fn decodes(&self, s: Seq<u8>) -> bool {
        *self == spec_sect_head32_at(s)
    }

    fn record_size() -> usize {
        40
    }

    fn record_align() -> usize {
        4
    }

    fn from_bytes(buf: &[u8], off: usize) -> (r: Self) {
        let l = buf.len();
        let r = SectHead32 {
            head: SectNonArchDep {
                sh_name: read_u32(buf, off),
                sh_type: ShTypeUnchecked { raw: read_u32(buf, off + 4) },
            },
            sh_flags: read_u32(buf, off + 8),
            sh_addr: read_u32(buf, off + 12),
            sh_offset: read_u32(buf, off + 16),
            sh_size: read_u32(buf, off + 20),
            sh_link: read_u32(buf, off + 24),
            sh_info: read_u32(buf, off + 28),
            sh_addralign: read_u32(buf, off + 32),
            sh_entsize: read_u32(buf, off + 36),
        };
        proof {
            let s = buf@.subrange(off as int, off + 40);
            assert(buf@.subrange(off as int, off + 4) =~= s.subrange(0, 4));
            assert(buf@.subrange(off + 4, off + 8) =~= s.subrange(4, 8));
            assert(buf@.subrange(off + 8, off + 12) =~= s.subrange(8, 12));
            assert(buf@.subrange(off + 12, off + 16) =~= s.subrange(12, 16));
            assert(buf@.subrange(off + 16, off + 20) =~= s.subrange(16, 20));
            assert(buf@.subrange(off + 20, off + 24) =~= s.subrange(20, 24));
            assert(buf@.subrange(off + 24, off + 28) =~= s.subrange(24, 28));
            assert(buf@.subrange(off + 28, off + 32) =~= s.subrange(28, 32));
            assert(buf@.subrange(off + 32, off + 36) =~= s.subrange(32, 36));
            assert(buf@.subrange(off + 36, off + 40) =~= s.subrange(36, 40));
        }
        r
    }
}

/// A 64-bit section header.
#[derive(Debug, Clone, PartialEq)]
pub struct SectHead64 {
    pub head: SectNonArchDep,
    pub sh_flags: u64,
    pub sh_addr: u64,
    pub sh_offset: u64,
    pub sh_size: u64,
    pub sh_link: u32,
    pub sh_info: u32,
    pub sh_addralign: u64,
    pub sh_entsize: u64,
}

/// The `SectHead64` record the 64 bytes `s` encode.
pub open spec fn spec_sect_head64_at(s: Seq<u8>) -> SectHead64 {
    SectHead64 {
        head: SectNonArchDep {
            sh_name: spec_u32_at(s, 0),
            sh_type: ShTypeUnchecked { raw: spec_u32_at(s, 4) },
        },
        sh_flags: spec_u64_at(s, 8),
        sh_addr: spec_u64_at(s, 16),
        sh_offset: spec_u64_at(s, 24),
        sh_size: spec_u64_at(s, 32),
        sh_link: spec_u32_at(s, 40),
        sh_info: spec_u32_at(s, 44),
        sh_addralign: spec_u64_at(s, 48),
        sh_entsize: spec_u64_at(s, 56),
    }
}

impl TransmuteSafe for SectHead64 {
    open spec fn size_spec() -> int {
        64
    }

    open spec fn align_spec() -> int {
        8
    }

    open spec fn decodes(&self, s: Seq<u8>) -> bool {
        *self == spec_sect_head64_at(s)
    }

    fn record_size() -> usize {
        64
    }

    fn record_align() -> usize {
        8
    }

    fn from_bytes(buf: &[u8], off: usize) -> (r: Self) {
        let l = buf.len();
        let r = SectHead64 {
            head: SectNonArchDep {
                sh_name: read_u32(buf, off),
                sh_type: ShTypeUnchecked { raw: read_u32(buf, off + 4) },
            },
            sh_flags: read_u64(buf, off + 8),
            sh_addr: read_u64(buf, off + 16),
            sh_offset: read_u64(buf, off + 24),
            sh_size: read_u64(buf, off + 32),
            sh_link: read_u32(buf, off + 40),
            sh_info: read_u32(buf, off + 44),
            sh_addralign: read_u64(buf, off + 48),
            sh_entsize: read_u64(buf, off + 56),
        };
        proof {
            let s = buf@.subrange(off as int, off + 64);
            assert(buf@.subrange(off as int, off + 4) =~= s.subrange(0, 4));
            assert(buf@.subrange(off + 4, off + 8) =~= s.subrange(4, 8));
            assert(buf@.subrange(off + 8, off + 16) =~= s.subrange(8, 16));
            assert(buf@.subrange(off + 16, off + 24) =~= s.subrange(16, 24));
            assert(buf@.subrange(off + 24, off + 32) =~= s.subrange(24, 32));
            assert(buf@.subrange(off + 32, off + 40) =~= s.subrange(32, 40));
            assert(buf@.subrange(off + 40, off + 44) =~= s.subrange(40, 44));
            assert(buf@.subrange(off + 44, off + 48) =~= s.subrange(44, 48));
            assert(buf@.subrange(off + 48, off + 56) =~= s.subrange(48, 56));
            assert(buf@.subrange(off + 56, off + 64) =~= s.subrange(56, 64));
        }
        r
    }
}

/// A 32-bit symbol entry; value and size sit before the info byte.
#[derive(Debug, Clone, PartialEq)]
pub struct Sym32 {
    pub st_name: u32,
    pub st_value: u32,
    pub st_size: u32,
    pub st_info: u8,
    pub st_other: u8,
    pub st_shndx: u16,
}

/// The `Sym32` record the 16 bytes `s` encode.
pub open spec fn spec_sym32_at(s: Seq<u8>) -> Sym32 {
    Sym32 {
        st_name: spec_u32_at(s, 0),
        st_value: spec_u32_at(s, 4),
        st_size: spec_u32_at(s, 8),
        st_info: s[12],
        st_other: s[13],
        st_shndx: spec_u16_at(s, 14),
    }
}

impl TransmuteSafe for Sym32 {
    open spec fn size_spec() -> int {
        16
    }

    open spec fn align_spec() -> int {
        4
    }

    open spec fn decodes(&self, s: Seq<u8>) -> bool {
        *self == spec_sym32_at(s)
    }

    fn record_size() -> usize {
        16
    }

    fn record_align() -> usize {
        4
    }

    fn from_bytes(buf: &[u8], off: usize) -> (r: Self) {
        let l = buf.len();
        let r = Sym32 {
            st_name: read_u32(buf, off),
            st_value: read_u32(buf, off + 4),
            st_size: read_u32(buf, off + 8),
            st_info: read_u8(buf, off + 12),
            st_other: read_u8(buf, off + 13),
            st_shndx: read_u16(buf, off + 14),
        };
        proof {
            let s = buf@.subrange(off as int, off + 16);
            assert(buf@.subrange(off as int, off + 4) =~= s.subrange(0, 4));
            assert(buf@.subrange(off + 4, off + 8) =~= s.subrange(4, 8));
            assert(buf@.subrange(off + 8, off + 12) =~= s.subrange(8, 12));
            assert(buf@.subrange(off + 14, off + 16) =~= s.subrange(14, 16));
        }
        r
    }
}

/// A 64-bit symbol entry.
#[derive(Debug, Clone, PartialEq)]
pub struct Sym64 {
    pub st_name: u32,
    pub st_info: u8,
    pub st_other: u8,
    pub st_shndx: u16,
    pub st_value: u64,
    pub st_size: u64,
}

/// The `Sym64` record the 24 bytes `s` encode.
pub open spec fn spec_sym64_at(s: Seq<u8>) -> Sym64 {
    Sym64 {
        st_name: spec_u32_at(s, 0),
        st_info: s[4],
        st_other: s[5],
        st_shndx: spec_u16_at(s, 6),
        st_value: spec_u64_at(s, 8),
        st_size: spec_u64_at(s, 16),
    }
}

impl TransmuteSafe for Sym64 {
    open spec fn size_spec() -> int {
        24
    }

    open spec fn align_spec() -> int {
        8
    }

    open spec fn decodes(&self, s: Seq<u8>) -> bool {
        *self == spec_sym64_at(s)
    }

    fn record_size() -> usize {
        24
    }

    fn record_align() -> usize {
        8
    }

    fn from_bytes(buf: &[u8], off: usize) -> (r: Self) {
        let l = buf.len();
        let r = Sym64 {
            st_name: read_u32(buf, off),
            st_info: read_u8(buf, off + 4),
            st_other: read_u8(buf, off + 5),
            st_shndx: read_u16(buf, off + 6),
            st_value: read_u64(buf, off + 8),
            st_size: read_u64(buf, off + 16),
        };
        proof {
            let s = buf@.subrange(off as int, off + 24);
            assert(buf@.subrange(off as int, off + 4) =~= s.subrange(0, 4));
            assert(buf@.subrange(off + 6, off + 8) =~= s.subrange(6, 8));
            assert(buf@.subrange(off + 8, off + 16) =~= s.subrange(8, 16));
            assert(buf@.subrange(off + 16, off + 24) =~= s.subrange(16, 24));
        }
        r
    }
}

/// The sizes and alignments of every fixed-layout record match the ELF
/// ABI: 64-bit header 64 bytes, program header 56, section header 64,
/// symbol entry 24, with their 32-bit counterparts at 52, 32, 40 and 16;
/// records with a 64-bit field align to 8, the 32-bit variants to 4.
pub proof fn lemma_record_layout()
    ensures
        ElfNonArchDep::size_spec() == 24 && ElfNonArchDep::align_spec() == 4,
        Elf32Offs::size_spec() == 12 && Elf32Offs::align_spec() == 4,
        Elf64Offs::size_spec() == 24 && Elf64Offs::align_spec() == 8,
        ElfNonArchDep2::size_spec() == 16 && ElfNonArchDep2::align_spec() == 4,
        ElfNonArchDep::size_spec() + Elf32Offs::size_spec() + ElfNonArchDep2::size_spec() == 52,
        ElfNonArchDep::size_spec() + Elf64Offs::size_spec() + ElfNonArchDep2::size_spec() == 64,
        ProgHead32::size_spec() == 32 && ProgHead32::align_spec() == 4,
        ProgHead64::size_spec() == 56 && ProgHead64::align_spec() == 8,
        SectHead32::size_spec() == 40 && SectHead32::align_spec() == 4,
        SectHead64::size_spec() == 64 && SectHead64::align_spec() == 8,
        Sym32::size_spec() == 16 && Sym32::align_spec() == 4,
        Sym64::size_spec() == 24 && Sym64::align_spec() == 8,
{
}

/// The symbolic name of a recognised `EIClass` value.
pub open spec fn spec_class_name(k: EIClass) -> Seq<char> {
    match k {
        EIClass::Elf32Bit => "Elf32Bit"@,
        EIClass::Elf64Bit => "Elf64Bit"@,
    }
}

impl EIClass {
    /// The human-readable name of this value.
    pub fn name_str(&self) -> (r: &'static str)
        ensures
            r@ == spec_class_name(*self),
    {
        match self {
            EIClass::Elf32Bit => "Elf32Bit",
            EIClass::Elf64Bit => "Elf64Bit",
        }
    }
}

/// The symbolic name of a recognised `EIData` value.
pub open spec fn spec_data_name(k: EIData) -> Seq<char> {
    match k {
        EIData::LittleEndian => "LittleEndian"@,
        EIData::BigEndian => "BigEndian"@,
    }
}

impl EIData {
    /// The human-readable name of this value.
    pub fn name_str(&self) -> (r: &'static str)
        ensures
            r@ == spec_data_name(*self),
    {
        match self {
            EIData::LittleEndian => "LittleEndian",
            EIData::BigEndian => "BigEndian",
        }
    }
}

/// The symbolic name of a recognised `EIOsAbi` value.
pub open spec fn spec_osabi_name(k: EIOsAbi) -> Seq<char> {
    match k {
        EIOsAbi::SystemV => "SystemV"@,
        EIOsAbi::Linux => "Linux"@,
    }
}

impl EIOsAbi {
    /// The human-readable name of this value.
    pub fn name_str(&self) -> (r: &'static str)
        ensures
            r@ == spec_osabi_name(*self),
    {
        match self {
            EIOsAbi::SystemV => "SystemV",
            EIOsAbi::Linux => "Linux",
        }
    }
}

/// The symbolic name of a recognised `EType` value.
pub open spec fn spec_etype_name(k: EType) -> Seq<char> {
    match k {
        EType::NoType => "NoType"@,
        EType::Rel => "Rel"@,
        EType::Exec => "Exec"@,
        EType::Dyn => "Dyn"@,
        EType::Core => "Core"@,
    }
}

impl EType {
    /// The human-readable name of this value.
    pub fn name_str(&self) -> (r: &'static str)
        ensures
            r@ == spec_etype_name(*self),
    {
        match self {
            EType::NoType => "NoType",
            EType::Rel => "Rel",
            EType::Exec => "Exec",
            EType::Dyn => "Dyn",
            EType::Core => "Core",
        }
    }
}

/// The symbolic name of a recognised `EMachine` value.
pub open spec fn spec_machine_name(k: EMachine) -> Seq<char> {
    match k {
        EMachine::X86 => "X86"@,
        EMachine::X86_64 => "X86_64"@,
        EMachine::Aarch64 => "Aarch64"@,
    }
}

impl EMachine {
    /// The human-readable name of this value.
    pub fn name_str(&self) -> (r: &'static str)
        ensures
            r@ == spec_machine_name(*self),
    {
        match self {
            EMachine::X86 => "X86",
            EMachine::X86_64 => "X86_64",
            EMachine::Aarch64 => "Aarch64",
        }
    }
}

/// The symbolic name of a recognised `PType` value.
pub open spec fn spec_ptype_name(k: PType) -> Seq<char> {
    match k {
        PType::Null => "Null"@,
        PType::Load => "Load"@,
        PType::Dynamic => "Dynamic"@,
        PType::Interp => "Interp"@,
        PType::Note => "Note"@,
        PType::Shlib => "Shlib"@,
        PType::Phdr => "Phdr"@,
        PType::Tls => "Tls"@,
        PType::GnuEhFrame => "GnuEhFrame"@,
        PType::GnuStack => "GnuStack"@,
        PType::GnuRelro => "GnuRelro"@,
    }
}

impl PType {
    /// The human-readable name of this value.
    pub fn name_str(&self) -> (r: &'static str)
        ensures
            r@ == spec_ptype_name(*self),
    {
        match self {
            PType::Null => "Null",
            PType::Load => "Load",
            PType::Dynamic => "Dynamic",
            PType::Interp => "Interp",
            PType::Note => "Note",
            PType::Shlib => "Shlib",
            PType::Phdr => "Phdr",
            PType::Tls => "Tls",
            PType::GnuEhFrame => "GnuEhFrame",
            PType::GnuStack => "GnuStack",
            PType::GnuRelro => "GnuRelro",
        }
    }
}

/// The symbolic name of a recognised `ShType` value.
pub open spec fn spec_shtype_name(k: ShType) -> Seq<char> {
    match k {
        ShType::Null => "Null"@,
        ShType::Progbits => "Progbits"@,
        ShType::Symtab => "Symtab"@,
        ShType::Strtab => "Strtab"@,
        ShType::Rela => "Rela"@,
        ShType::Hash => "Hash"@,
        ShType::Dynamic => "Dynamic"@,
        ShType::Note => "Note"@,
        ShType::Nobits => "Nobits"@,
        ShType::Rel => "Rel"@,
        ShType::Shlib => "Shlib"@,
        ShType::Dynsym => "Dynsym"@,
        ShType::InitArray => "InitArray"@,
        ShType::FiniArray => "FiniArray"@,
        ShType::PreinitArray => "PreinitArray"@,
        ShType::Group => "Group"@,
        ShType::SymtabShndx => "SymtabShndx"@,
        ShType::Num => "Num"@,
        ShType::GnuHash => "GnuHash"@,
        ShType::GnuVerdef => "GnuVerdef"@,
        ShType::GnuVerneed => "GnuVerneed"@,
        ShType::GnuVersym => "GnuVersym"@,
    }
}

impl ShType {
    /// The human-readable name of this value.
    pub fn name_str(&self) -> (r: &'static str)
        ensures
            r@ == spec_shtype_name(*self),
    {
        match self {
            ShType::Null => "Null",
            ShType::Progbits => "Progbits",
            ShType::Symtab => "Symtab",
            ShType::Strtab => "Strtab",
            ShType::Rela => "Rela",
            ShType::Hash => "Hash",
            ShType::Dynamic => "Dynamic",
            ShType::Note => "Note",
            ShType::Nobits => "Nobits",
            ShType::Rel => "Rel",
            ShType::Shlib => "Shlib",
            ShType::Dynsym => "Dynsym",
            ShType::InitArray => "InitArray",
            ShType::FiniArray => "FiniArray",
            ShType::PreinitArray => "PreinitArray",
            ShType::Group => "Group",
            ShType::SymtabShndx => "SymtabShndx",
            ShType::Num => "Num",
            ShType::GnuHash => "GnuHash",
            ShType::GnuVerdef => "GnuVerdef",
            ShType::GnuVerneed => "GnuVerneed",
            ShType::GnuVersym => "GnuVersym",
        }
    }
}

} // verus!
