//! Validated, panic-free interpretation of an ELF byte buffer.

use crate::elf::e;
use crate::error::{Error, ParseFault};
use crate::utils::{spec_u16_at, spec_u32_at, ToKnown, TransmuteSafe};
use vstd::prelude::*;
use vstd::pervasive::unreached;
use vstd::slice::{slice_subrange, slice_to_vec};

pub mod enum_impls;
pub mod ffi_types;

use ffi_types::{
    spec_elf64_offs_at, spec_elf_tail_at, spec_prog_head64_at, spec_ptype_raw, spec_sect_head64_at,
    spec_shtype_raw, spec_sym64_at, EIClass, EIData, ElfHead32, ElfHead64, ElfNonArchDep,
    ElfNonArchDep2, Elf32Offs, Elf64Offs, EMachine, PType, PTypeUnchecked, ProgHead32, ProgHead64,
    SectHead32, SectHead64, ShType, ShTypeUnchecked, Sym32, Sym64,
};

verus! {

/// A string pool is well formed when it is empty, or starts and ends with
/// a NUL byte, so that every forward scan from a valid offset terminates.
pub open spec fn spec_pool_wf(s: Seq<u8>) -> bool {
    s.len() == 0 || (s[0] == 0 && s[s.len() - 1] == 0)
}

/// The index of the first NUL byte of `s` at or after `j`, or the length
/// of `s` when there is none.
pub open spec fn spec_find_nul(s: Seq<u8>, j: int) -> int
    decreases s.len() - j,
    when 0 <= j <= s.len()
{
    if j >= s.len() {
        s.len() as int
    } else if s[j] == 0 {
        j
    } else {
        spec_find_nul(s, j + 1)
    }
}

/// `spec_find_nul` points at the first NUL at or after `j`: nothing before
/// it is NUL, and it is NUL itself when it lies inside the pool.
pub proof fn lemma_find_nul(s: Seq<u8>, j: int)
    requires
        0 <= j <= s.len(),
    ensures
        j <= spec_find_nul(s, j) <= s.len(),
        spec_find_nul(s, j) < s.len() ==> s[spec_find_nul(s, j)] == 0,
        forall|k: int| j <= k < spec_find_nul(s, j) ==> s[k] != 0,
    decreases s.len() - j,
{
    if j < s.len() && s[j] != 0 {
        lemma_find_nul(s, j + 1);
    }
}

/// Whether a lookup at `off` in a pool with contents `s` succeeds.
pub open spec fn spec_lookup_ok(s: Seq<u8>, off: int) -> bool {
    if off == 0 {
        s.len() > 0
    } else {
        0 < off < s.len()
    }
}

/// What a lookup at `off` returns: the single leading NUL for offset 0,
/// otherwise the bytes from `off` up to (not including) the next NUL.
pub open spec fn spec_lookup(s: Seq<u8>, off: int) -> Seq<u8> {
    if off == 0 {
        s.subrange(0, 1)
    } else {
        s.subrange(off, spec_find_nul(s, off))
    }
}

/// A read-only pool of NUL-terminated names, looked up by byte offset.
#[derive(Debug, PartialEq)]
pub struct Strings {
    buf: Vec<u8>,
}

impl View for Strings {
    type V = Seq<u8>;

    closed spec fn view(&self) -> Seq<u8> {
        self.buf@
    }
}

impl Clone for Strings {
    /// A clone of a pool holds the same bytes.
    fn clone(&self) -> (r: Self)
        ensures
            r@ == self@,
    {
        proof {
            use_type_invariant(self);
        }
        Strings { buf: self.buf.clone() }
    }
}

impl Strings {
    /// Every pool is well formed by construction.
    #[verifier::type_invariant]
    closed spec fn wf(&self) -> bool {
        spec_pool_wf(self.buf@)
    }

    /// Looks a name up by its byte offset.  Offset 0 names the empty
    /// string and returns the single leading NUL byte; any other offset
    /// inside the pool returns the bytes up to (not including) the next
    /// NUL, which the result therefore never contains; offsets outside
    /// the pool fail with `Elf`.
    pub fn get_string(&self, offset: usize) -> (r: Result<&[u8], Error>)
        ensures
            r is Ok <==> spec_lookup_ok(self@, offset as int),
            match r {
                Ok(b) => {
                    &&& b@ == spec_lookup(self@, offset as int)
                    &&& offset == 0 ==> b@.len() == 1 && b@[0] == 0
                    &&& offset != 0 ==> forall|i: int| 0 <= i < b@.len() ==> b@[i] != 0
                },
                Err(err) => err == Error::Elf,
            },
    {
        proof {
            use_type_invariant(self);
        }
        let len = self.buf.len();
        if offset == 0 {
            if len == 0 {
                return e("invalid offset");
            }
            return Ok(slice_subrange(self.buf.as_slice(), 0, 1));
        }
        if offset >= len {
            return e("invalid offset");
        }
        let mut j = offset;
        while j < len && *self.buf.as_slice().get(j).unwrap() != 0
            invariant
                offset <= j <= len,
                len == self@.len(),
                0 < offset < len,
                spec_pool_wf(self@),
                forall|k: int| offset <= k < j ==> self@[k] != 0,
            decreases len - j,
        {
            j = j + 1;
        }
        proof {
            assert(self@[len - 1] == 0);
            assert(j < len);
            lemma_find_nul(self@, offset as int);
            assert(spec_find_nul(self@, offset as int) == j);
        }
        Ok(slice_subrange(self.buf.as_slice(), offset, j))
    }

    /// Builds the pool described by the section header `str_head` over the
    /// file buffer `buf`: the section must be a recognised string-table
    /// section, lie inside the buffer, and be NUL-framed when nonempty.
    pub fn from(buf: &[u8], str_head: &SectHead64) -> (r: Result<Strings, ParseFault>)
        ensures
            r is Ok <==> spec_strings_fault(buf@, *str_head) is None,
            match r {
                Ok(p) => p@ == buf@.subrange(
                    str_head.sh_offset as int,
                    str_head.sh_offset + str_head.sh_size,
                ),
                Err(f) => Some(f) == spec_strings_fault(buf@, *str_head),
            },
    {
        match str_head.head.sh_type.known() {
            Ok(ShType::Strtab) => (),
            Ok(_) => {
                return Err(ParseFault::NotStrtab);
            },
            Err(_) => {
                return Err(ParseFault::UnknownShType);
            },
        }
        let len = buf.len();
        if str_head.sh_size > len as u64 || str_head.sh_offset > len as u64 - str_head.sh_size {
            return Err(ParseFault::StrtabBounds);
        }
        let o = str_head.sh_offset as usize;
        let n = str_head.sh_size as usize;
        if n > 0 {
            let first = *slice_subrange(buf, o, o + n).get(0).unwrap();
            let last = *slice_subrange(buf, o, o + n).get(n - 1).unwrap();
            if first != 0 || last != 0 {
                return Err(ParseFault::StrtabFrame);
            }
        }
        Ok(Strings { buf: slice_to_vec(slice_subrange(buf, o, o + n)) })
    }
}

/// Why building a string pool from section header `sh` over the bytes `s`
/// fails, or `None` when it succeeds.
pub open spec fn spec_strings_fault(s: Seq<u8>, sh: SectHead64) -> Option<ParseFault> {
    if sh.head.sh_type.known_spec() is None {
        Some(ParseFault::UnknownShType)
    } else if sh.head.sh_type.raw != 0x3 {
        Some(ParseFault::NotStrtab)
    } else if sh.sh_offset + sh.sh_size > s.len() {
        Some(ParseFault::StrtabBounds)
    } else if sh.sh_size > 0 && (s[sh.sh_offset as int] != 0 || s[sh.sh_offset + sh.sh_size - 1]
        != 0) {
        Some(ParseFault::StrtabFrame)
    } else {
        None
    }
}

/// Why Phase 1 of header validation (the class-independent fields) fails
/// on the file bytes `s`, or `None` when every field is in order.
pub open spec fn spec_phase1_fault(s: Seq<u8>) -> Option<ParseFault> {
    if !(s[0] == 0x7f && s[1] == 0x45 && s[2] == 0x4c && s[3] == 0x46) {
        Some(ParseFault::BadMagic)
    } else if s[4] == 0x01 {
        Some(ParseFault::Class32)
    } else if s[4] != 0x02 {
        Some(ParseFault::BadClass)
    } else if s[5] == 0x02 {
        Some(ParseFault::BigEndian)
    } else if s[5] != 0x01 {
        Some(ParseFault::BadData)
    } else if s[6] != 0x01 {
        Some(ParseFault::BadIdentVersion)
    } else if exists|i: int| 9 <= i < 16 && s[i] != 0 {
        Some(ParseFault::BadPad)
    } else if spec_u16_at(s, 18) != 0x3E {
        Some(ParseFault::BadMachine)
    } else if spec_u32_at(s, 20) != 1 {
        Some(ParseFault::BadVersion)
    } else {
        None
    }
}

impl ElfNonArchDep {
    /// Phase 1 of header validation: magic, class (64-bit only), data
    /// encoding (little-endian only), identification version, reserved
    /// padding, machine (x86-64 only) and header version.  Fails with the
    /// first field that is out of order.
    pub fn check(&self, Ghost(s): Ghost<Seq<u8>>) -> (r: Result<(), ParseFault>)
        requires
            s.len() >= 24,
            self.decodes(s.subrange(0, 24)),
        ensures
            r is Ok <==> spec_phase1_fault(s) is None,
            match r {
                Ok(()) => true,
                Err(f) => Some(f) == spec_phase1_fault(s),
            },
    {
        proof {
            let s24 = s.subrange(0, 24);
            let s16 = s24.subrange(0, 16);
            assert(s16 =~= s.subrange(0, 16));
            assert(s16.subrange(0, 4) =~= s.subrange(0, 4));
            assert(s16.subrange(9, 16) =~= s.subrange(9, 16));
            assert(s24.subrange(16, 18) =~= s.subrange(16, 18));
            assert(s24.subrange(18, 20) =~= s.subrange(18, 20));
            assert(s24.subrange(20, 24) =~= s.subrange(20, 24));
        }
        let id = &self.e_ident;
        if !(*vstd::array::array_index_get(&id.ei_mag, 0) == 0x7f
            && *vstd::array::array_index_get(&id.ei_mag, 1) == 0x45
            && *vstd::array::array_index_get(&id.ei_mag, 2) == 0x4c
            && *vstd::array::array_index_get(&id.ei_mag, 3) == 0x46) {
            return Err(ParseFault::BadMagic);
        }
        match id.ei_class.known() {
            Ok(EIClass::Elf32Bit) => {
                return Err(ParseFault::Class32);
            },
            Ok(EIClass::Elf64Bit) => (),
            Err(_) => {
                return Err(ParseFault::BadClass);
            },
        }
        match id.ei_data.known() {
            Ok(EIData::LittleEndian) => (),
            Ok(EIData::BigEndian) => {
                return Err(ParseFault::BigEndian);
            },
            Err(_) => {
                return Err(ParseFault::BadData);
            },
        }
        if id.ei_version != 1 {
            return Err(ParseFault::BadIdentVersion);
        }
        let mut k: usize = 0;
        while k < 7
            invariant
                0 <= k <= 7,
                id.ei_pad@.len() == 7,
                s.len() >= 24,
                id.ei_pad@ == s.subrange(9, 16),
                s[0] == 0x7f && s[1] == 0x45 && s[2] == 0x4c && s[3] == 0x46,
                s[4] == 0x02 && s[5] == 0x01 && s[6] == 0x01,
                forall|i: int| 0 <= i < k ==> id.ei_pad@[i] == 0,
            decreases 7 - k,
        {
            if *vstd::array::array_index_get(&id.ei_pad, k) != 0 {
                proof {
                    let w: int = 9 + k as int;
                    assert(s.subrange(9, 16)[k as int] == s[w]);
                    assert(9 <= w < 16 && s[w] != 0);
                    assert(exists|i: int| 9 <= i < 16 && s[i] != 0);
                }
                return Err(ParseFault::BadPad);
            }
            k = k + 1;
        }
        proof {
            assert forall|i: int| 9 <= i < 16 implies s[i] == 0 by {
                assert(id.ei_pad@[i - 9] == 0);
                assert(s.subrange(9, 16)[i - 9] == s[i]);
            }
        }
        match self.e_machine.known() {
            Ok(EMachine::X86_64) => (),
            _ => {
                return Err(ParseFault::BadMachine);
            },
        }
        if self.e_version != 0x01 {
            return Err(ParseFault::BadVersion);
        }
        Ok(())
    }
}

/// Why Phase 2 of header validation fails on the 64-bit header tail `t`:
/// the declared header size must be 64, and the declared program- and
/// section-entry sizes must match the 64-bit record sizes whenever the
/// corresponding table is nonempty.
pub open spec fn spec_phase2_fault64(t: ElfNonArchDep2) -> Option<ParseFault> {
    if t.e_ehsize != 64 {
        Some(ParseFault::BadEhsize)
    } else if t.e_phnum > 0 && t.e_phentsize != 56 {
        Some(ParseFault::BadPhentsize)
    } else if t.e_shnum > 0 && t.e_shentsize != 64 {
        Some(ParseFault::BadShentsize)
    } else {
        None
    }
}

/// Why Phase 2 of header validation fails on the 32-bit header tail `t`.
pub open spec fn spec_phase2_fault32(t: ElfNonArchDep2) -> Option<ParseFault> {
    if t.e_ehsize != 52 {
        Some(ParseFault::BadEhsize)
    } else if t.e_phnum > 0 && t.e_phentsize != 32 {
        Some(ParseFault::BadPhentsize)
    } else if t.e_shnum > 0 && t.e_shentsize != 40 {
        Some(ParseFault::BadShentsize)
    } else {
        None
    }
}

impl ElfNonArchDep2 {
    /// Phase 2 of header validation, dispatched on the class: the declared
    /// header and table-entry sizes must match the record sizes of that
    /// class.  Fails with the first declared size that is out of order.
    pub fn check(&self, class: EIClass) -> (r: Result<(), ParseFault>)
        ensures
            r is Ok <==> (match class {
                EIClass::Elf64Bit => spec_phase2_fault64(*self) is None,
                EIClass::Elf32Bit => spec_phase2_fault32(*self) is None,
            }),
            match r {
                Ok(()) => true,
                Err(f) => Some(f) == (match class {
                    EIClass::Elf64Bit => spec_phase2_fault64(*self),
                    EIClass::Elf32Bit => spec_phase2_fault32(*self),
                }),
            },
    {
        let (ehsize, phentsize, shentsize): (u16, u16, u16) = match class {
            EIClass::Elf64Bit => (64, 56, 64),
            EIClass::Elf32Bit => (52, 32, 40),
        };
        if self.e_ehsize != ehsize {
            return Err(ParseFault::BadEhsize);
        }
        if self.e_phnum > 0 && self.e_phentsize != phentsize {
            return Err(ParseFault::BadPhentsize);
        }
        if self.e_shnum > 0 && self.e_shentsize != shentsize {
            return Err(ParseFault::BadShentsize);
        }
        Ok(())
    }
}

/// A program header of either width, read through uniform accessors.
pub trait ProgHead: Sized {
    /// The raw program-header type field.
    spec fn p_type_raw_spec(&self) -> u32;

    /// The file offset of the segment.
    spec fn offset_spec(&self) -> usize;

    /// The requested virtual address of the segment.
    spec fn vaddr_spec(&self) -> usize;

    /// The size of the segment in the file.
    spec fn filesz_spec(&self) -> usize;

    /// The size of the segment in memory.
    spec fn memsz_spec(&self) -> usize;

    /// The requested alignment of the segment.
    spec fn p_align_spec(&self) -> usize;

    /// Decodes the program-header type, failing with `Elf` exactly on an
    /// unrecognised value.
    fn p_type(&self) -> (r: Result<PType, Error>)
        ensures
            r is Ok <==> (PTypeUnchecked { raw: self.p_type_raw_spec() }).known_spec() is Some,
            match r {
                Ok(v) => spec_ptype_raw(v) == self.p_type_raw_spec(),
                Err(err) => err == Error::Elf,
            },
    ;

    fn offset(&self) -> (r: usize)
        ensures
            r == self.offset_spec(),
    ;

    fn vaddr(&self) -> (r: usize)
        ensures
            r == self.vaddr_spec(),
    ;

    fn filesz(&self) -> (r: usize)
        ensures
            r == self.filesz_spec(),
    ;

    fn memsz(&self) -> (r: usize)
        ensures
            r == self.memsz_spec(),
    ;

    fn align(&self) -> (r: usize)
        ensures
            r == self.p_align_spec(),
    ;
}

impl ProgHead for ProgHead32 {
    open spec fn p_type_raw_spec(&self) -> u32 {
        self.p_type.raw
    }

    open spec fn offset_spec(&self) -> usize {
        self.p_offset as usize
    }

    open spec fn vaddr_spec(&self) -> usize {
        self.p_vaddr as usize
    }

    open spec fn filesz_spec(&self) -> usize {
        self.p_filesz as usize
    }

    open spec fn memsz_spec(&self) -> usize {
        self.p_memsz as usize
    }

    open spec fn p_align_spec(&self) -> usize {
        self.p_align as usize
    }

    fn p_type(&self) -> Result<PType, Error> {
        match self.p_type.known() {
            Ok(o) => Ok(o),
            Err(_) => e("invalid p_type value"),
        }
    }

    fn offset(&self) -> usize {
        self.p_offset as usize
    }

    fn vaddr(&self) -> usize {
        self.p_vaddr as usize
    }

    fn filesz(&self) -> usize {
        self.p_filesz as usize
    }

    fn memsz(&self) -> usize {
        self.p_memsz as usize
    }

    fn align(&self) -> usize {
        self.p_align as usize
    }
}

impl ProgHead for ProgHead64 {
    open spec fn p_type_raw_spec(&self) -> u32 {
        self.p_type.raw
    }

    open spec fn offset_spec(&self) -> usize {
        self.p_offset as usize
    }

    open spec fn vaddr_spec(&self) -> usize {
        self.p_vaddr as usize
    }

    open spec fn filesz_spec(&self) -> usize {
        self.p_filesz as usize
    }

    open spec fn memsz_spec(&self) -> usize {
        self.p_memsz as usize
    }

    open spec fn p_align_spec(&self) -> usize {
        self.p_align as usize
    }

    fn p_type(&self) -> Result<PType, Error> {
        match self.p_type.known() {
            Ok(o) => Ok(o),
            Err(_) => e("invalid p_type value"),
        }
    }

    fn offset(&self) -> usize {
        #[verifier::truncate] (self.p_offset as usize)
    }

    fn vaddr(&self) -> usize {
        #[verifier::truncate] (self.p_vaddr as usize)
    }

    fn filesz(&self) -> usize {
        #[verifier::truncate] (self.p_filesz as usize)
    }

    fn memsz(&self) -> usize {
        #[verifier::truncate] (self.p_memsz as usize)
    }

    fn align(&self) -> usize {
        #[verifier::truncate] (self.p_align as usize)
    }
}

/// A section header of either width, read through uniform accessors.
pub trait SectHead: Sized {
    /// The symbol record type of this width.
    type SymTab: TransmuteSafe;

    /// The offset of the section's name in the section-name pool.
    spec fn sh_name_spec(&self) -> u32;

    /// The raw section-type field.
    spec fn sh_type_raw_spec(&self) -> u32;

    /// The file offset of the section's contents.
    spec fn sh_offset_spec(&self) -> usize;

    /// The size of the section's contents in bytes.
    spec fn sh_size_spec(&self) -> usize;

    /// The declared size of one table entry of the section.
    spec fn sh_entsize_spec(&self) -> usize;

    /// Looks the section's name up in the section-name pool.
    fn name<'a>(&self, strs: &'a Strings) -> (r: Result<&'a [u8], Error>)
        ensures
            r is Ok <==> spec_lookup_ok(strs@, self.sh_name_spec() as int),
            match r {
                Ok(b) => b@ == spec_lookup(strs@, self.sh_name_spec() as int),
                Err(err) => err == Error::Elf,
            },
    ;

    /// Decodes the section type, failing with `Elf` exactly on an
    /// unrecognised value.
    fn sh_type(&self) -> (r: Result<ShType, Error>)
        ensures
            r is Ok <==> (ShTypeUnchecked { raw: self.sh_type_raw_spec() }).known_spec() is Some,
            match r {
                Ok(v) => spec_shtype_raw(v) == self.sh_type_raw_spec(),
                Err(err) => err == Error::Elf,
            },
    ;

    fn offset(&self) -> (r: usize)
        ensures
            r == self.sh_offset_spec(),
    ;

    fn size(&self) -> (r: usize)
        ensures
            r == self.sh_size_spec(),
    ;

    fn entsize(&self) -> (r: usize)
        ensures
            r == self.sh_entsize_spec(),
    ;
}

impl SectHead for SectHead32 {
    type SymTab = Sym32;

    open spec fn sh_name_spec(&self) -> u32 {
        self.head.sh_name
    }

    open spec fn sh_type_raw_spec(&self) -> u32 {
        self.head.sh_type.raw
    }

    open spec fn sh_offset_spec(&self) -> usize {
        self.sh_offset as usize
    }

    open spec fn sh_size_spec(&self) -> usize {
        self.sh_size as usize
    }

    open spec fn sh_entsize_spec(&self) -> usize {
        self.sh_entsize as usize
    }

    fn name<'a>(&self, strs: &'a Strings) -> Result<&'a [u8], Error> {
        strs.get_string(self.head.sh_name as usize)
    }

    fn sh_type(&self) -> Result<ShType, Error> {
        match self.head.sh_type.known() {
            Ok(o) => Ok(o),
            Err(_) => e("unknown sh_type"),
        }
    }

    fn offset(&self) -> usize {
        self.sh_offset as usize
    }

    fn size(&self) -> usize {
        self.sh_size as usize
    }

    fn entsize(&self) -> usize {
        self.sh_entsize as usize
    }
}

impl SectHead for SectHead64 {
    type SymTab = Sym64;

    open spec fn sh_name_spec(&self) -> u32 {
        self.head.sh_name
    }

    open spec fn sh_type_raw_spec(&self) -> u32 {
        self.head.sh_type.raw
    }

    open spec fn sh_offset_spec(&self) -> usize {
        self.sh_offset as usize
    }

    open spec fn sh_size_spec(&self) -> usize {
        self.sh_size as usize
    }

    open spec fn sh_entsize_spec(&self) -> usize {
        self.sh_entsize as usize
    }

    fn name<'a>(&self, strs: &'a Strings) -> Result<&'a [u8], Error> {
        strs.get_string(self.head.sh_name as usize)
    }

    fn sh_type(&self) -> Result<ShType, Error> {
        match self.head.sh_type.known() {
            Ok(o) => Ok(o),
            Err(_) => e("unknown sh_type"),
        }
    }

    fn offset(&self) -> usize {
        #[verifier::truncate] (self.sh_offset as usize)
    }

    fn size(&self) -> usize {
        #[verifier::truncate] (self.sh_size as usize)
    }

    fn entsize(&self) -> usize {
        #[verifier::truncate] (self.sh_entsize as usize)
    }
}

/// The binding of a symbol: the high nibble of its info byte.
#[derive(Debug, Clone, Copy, PartialEq, Eq, Structural)]
pub enum StBind {
    Local,
    Global,
    Weak,
}

/// The raw nibble a symbol binding stands for.
pub open spec fn spec_st_bind_raw(b: StBind) -> u8 {
    match b {
        StBind::Local => 0,
        StBind::Global => 1,
        StBind::Weak => 2,
    }
}

/// The type of a symbol: the low nibble of its info byte.
#[derive(Debug, Clone, Copy, PartialEq, Eq, Structural)]
pub enum StType {
    NoType,
    Object,
    Func,
    Section,
    File,
    Common,
    Tls,
}

/// The raw nibble a symbol type stands for.
pub open spec fn spec_st_type_raw(t: StType) -> u8 {
    match t {
        StType::NoType => 0,
        StType::Object => 1,
        StType::Func => 2,
        StType::Section => 3,
        StType::File => 4,
        StType::Common => 5,
        StType::Tls => 6,
    }
}

/// The symbol type encoded in an info byte, if its low nibble is
/// recognised.
pub open spec fn spec_st_type(st_info: u8) -> Option<StType> {
    let u = st_info & 0x0f;
    if u == 0 {
        Some(StType::NoType)
    } else if u == 1 {
        Some(StType::Object)
    } else if u == 2 {
        Some(StType::Func)
    } else if u == 3 {
        Some(StType::Section)
    } else if u == 4 {
        Some(StType::File)
    } else if u == 5 {
        Some(StType::Common)
    } else if u == 6 {
        Some(StType::Tls)
    } else {
        None
    }
}

/// The symbol binding encoded in an info byte, if its high nibble is
/// recognised.
pub open spec fn spec_st_bind(st_info: u8) -> Option<StBind> {
    let u = st_info >> 4;
    if u == 0 {
        Some(StBind::Local)
    } else if u == 1 {
        Some(StBind::Global)
    } else if u == 2 {
        Some(StBind::Weak)
    } else {
        None
    }
}

/// Decodes the low nibble of a symbol info byte into the symbol type,
/// failing with `Elf` exactly on an unrecognised nibble.
pub fn st_type(st_info: u8) -> (r: Result<StType, Error>)
    ensures
        r is Ok <==> spec_st_type(st_info) is Some,
        match r {
            Ok(v) => Some(v) == spec_st_type(st_info) && spec_st_type_raw(v) == st_info & 0x0f,
            Err(err) => err == Error::Elf,
        },
{
    Ok(
        match st_info & 0x0f {
            0 => StType::NoType,
            1 => StType::Object,
            2 => StType::Func,
            3 => StType::Section,
            4 => StType::File,
            5 => StType::Common,
            6 => StType::Tls,
            _ => {
                return e("unknown symtab.st_type value");
            },
        },
    )
}

/// Decodes the high nibble of a symbol info byte into the symbol binding,
/// failing with `Elf` exactly on an unrecognised nibble.
pub fn st_bind(st_info: u8) -> (r: Result<StBind, Error>)
    ensures
        r is Ok <==> spec_st_bind(st_info) is Some,
        match r {
            Ok(v) => Some(v) == spec_st_bind(st_info) && spec_st_bind_raw(v) == st_info >> 4,
            Err(err) => err == Error::Elf,
        },
{
    Ok(
        match st_info >> 4 {
            0 => StBind::Local,
            1 => StBind::Global,
            2 => StBind::Weak,
            _ => {
                return e("unknown symtab.st_bind value");
            },
        },
    )
}

/// A symbol entry of either width, read through uniform accessors.
pub trait Sym: Sized {
    /// The offset of the symbol's name in the symbol-name pool.
    spec fn st_name_spec(&self) -> u32;

    /// The symbol's info byte, carrying binding and type nibbles.
    spec fn st_info_spec(&self) -> u8;

    /// Looks the symbol's name up in the symbol-name pool.
    fn name<'a>(&self, strs: &'a Strings) -> (r: Result<&'a [u8], Error>)
        ensures
            r is Ok <==> spec_lookup_ok(strs@, self.st_name_spec() as int),
            match r {
                Ok(b) => b@ == spec_lookup(strs@, self.st_name_spec() as int),
                Err(err) => err == Error::Elf,
            },
    ;

    /// Decodes the symbol's binding from the high nibble of its info byte.
    fn binding(&self) -> (r: Result<StBind, Error>)
        ensures
            r is Ok <==> spec_st_bind(self.st_info_spec()) is Some,
            match r {
                Ok(v) => Some(v) == spec_st_bind(self.st_info_spec()),
                Err(err) => err == Error::Elf,
            },
    ;

    /// Decodes the symbol's type from the low nibble of its info byte.
    fn st_type(&self) -> (r: Result<StType, Error>)
        ensures
            r is Ok <==> spec_st_type(self.st_info_spec()) is Some,
            match r {
                Ok(v) => Some(v) == spec_st_type(self.st_info_spec()),
                Err(err) => err == Error::Elf,
            },
    ;
}

impl Sym for Sym32 {
    open spec fn st_name_spec(&self) -> u32 {
        self.st_name
    }

    open spec fn st_info_spec(&self) -> u8 {
        self.st_info
    }

    fn name<'a>(&self, strs: &'a Strings) -> Result<&'a [u8], Error> {
        strs.get_string(self.st_name as usize)
    }

    fn binding(&self) -> Result<StBind, Error> {
        st_bind(self.st_info)
    }

    fn st_type(&self) -> Result<StType, Error> {
        st_type(self.st_info)
    }
}

impl Sym for Sym64 {
    open spec fn st_name_spec(&self) -> u32 {
        self.st_name
    }

    open spec fn st_info_spec(&self) -> u8 {
        self.st_info
    }

    fn name<'a>(&self, strs: &'a Strings) -> Result<&'a [u8], Error> {
        strs.get_string(self.st_name as usize)
    }

    fn binding(&self) -> Result<StBind, Error> {
        st_bind(self.st_info)
    }

    fn st_type(&self) -> Result<StType, Error> {
        st_type(self.st_info)
    }
}

/// An ELF header of either width: table offsets and entry counts, and the
/// reading of whole program- and section-header tables.
pub trait ElfHead: Sized {
    /// The program-header record type of this width.
    type ProgHead: TransmuteSafe;

    /// The section-header record type of this width.
    type SectHead: TransmuteSafe;

    /// The file offset of the program-header table.
    spec fn phoff_spec(&self) -> u64;

    /// The file offset of the section-header table.
    spec fn shoff_spec(&self) -> u64;

    /// The number of program-header entries.
    spec fn phnum_spec(&self) -> usize;

    /// The number of section-header entries.
    spec fn shnum_spec(&self) -> usize;

    fn phoff(&self) -> (r: u64)
        ensures
            r == self.phoff_spec(),
    ;

    fn shoff(&self) -> (r: u64)
        ensures
            r == self.shoff_spec(),
    ;

    fn phnum(&self) -> (r: usize)
        ensures
            r == self.phnum_spec(),
    ;

    fn shnum(&self) -> (r: usize)
        ensures
            r == self.shnum_spec(),
    ;

    /// Reads the program-header table out of the file bytes.  Fails with
    /// `Transmute` exactly when the declared table does not fit in the
    /// buffer.
    fn prog_headers(&self, buf: &[u8]) -> (r: Result<Vec<Self::ProgHead>, Error>)
        ensures
            r is Ok <==> self.phoff_spec() + self.phnum_spec() * Self::ProgHead::size_spec()
                <= buf@.len(),
            match r {
                Ok(v) => v@.len() == self.phnum_spec() && (forall|i: int|
                    0 <= i < v@.len() ==> v@[i].decodes(
                        buf@.subrange(
                            self.phoff_spec() + i * Self::ProgHead::size_spec(),
                            self.phoff_spec() + (i + 1) * Self::ProgHead::size_spec(),
                        ),
                    )),
                Err(err) => err == Error::Transmute,
            },
    {
        let sz = Self::ProgHead::record_size();
        let off64 = self.phoff();
        let n = self.phnum();
        let l = buf.len();
        if off64 > l as u64 {
            proof {
                assert(n * Self::ProgHead::size_spec() >= 0) by (nonlinear_arith)
                    requires
                        n >= 0,
                        Self::ProgHead::size_spec() >= 0,
                ;
            }
            return Err(Error::Transmute);
        }
        let off = off64 as usize;
        let tail = slice_subrange(buf, off, l);
        match Self::ProgHead::slice_from_buf(tail, n) {
            Ok((v, _)) => {
                proof {
                    let szs = Self::ProgHead::size_spec();
                    let o = self.phoff_spec() as int;
                    assert forall|i: int| 0 <= i < v@.len() implies v@[i].decodes(
                        buf@.subrange(o + i * szs, o + (i + 1) * szs),
                    ) by {
                        assert(0 <= i * szs && i * szs <= (i + 1) * szs && (i + 1) * szs <= n
                            * szs) by (nonlinear_arith)
                            requires
                                0 <= i < n,
                                szs >= 1,
                        ;
                        assert(tail@.subrange(i * szs, (i + 1) * szs) =~= buf@.subrange(
                            o + i * szs,
                            o + (i + 1) * szs,
                        ));
                    }
                }
                Ok(v)
            },
            Err(err) => Err(err),
        }
    }

    /// Reads the section-header table out of the file bytes.  Fails with
    /// `Transmute` exactly when the declared table does not fit in the
    /// buffer.
    fn sect_headers(&self, buf: &[u8]) -> (r: Result<Vec<Self::SectHead>, Error>)
        ensures
            r is Ok <==> self.shoff_spec() + self.shnum_spec() * Self::SectHead::size_spec()
                <= buf@.len(),
            match r {
                Ok(v) => v@.len() == self.shnum_spec() && (forall|i: int|
                    0 <= i < v@.len() ==> v@[i].decodes(
                        buf@.subrange(
                            self.shoff_spec() + i * Self::SectHead::size_spec(),
                            self.shoff_spec() + (i + 1) * Self::SectHead::size_spec(),
                        ),
                    )),
                Err(err) => err == Error::Transmute,
            },
    {
        let sz = Self::SectHead::record_size();
        let off64 = self.shoff();
        let n = self.shnum();
        let l = buf.len();
        if off64 > l as u64 {
            proof {
                assert(n * Self::SectHead::size_spec() >= 0) by (nonlinear_arith)
                    requires
                        n >= 0,
                        Self::SectHead::size_spec() >= 0,
                ;
            }
            return Err(Error::Transmute);
        }
        let off = off64 as usize;
        let tail = slice_subrange(buf, off, l);
        match Self::SectHead::slice_from_buf(tail, n) {
            Ok((v, _)) => {
                proof {
                    let szs = Self::SectHead::size_spec();
                    let o = self.shoff_spec() as int;
                    assert forall|i: int| 0 <= i < v@.len() implies v@[i].decodes(
                        buf@.subrange(o + i * szs, o + (i + 1) * szs),
                    ) by {
                        assert(0 <= i * szs && i * szs <= (i + 1) * szs && (i + 1) * szs <= n
                            * szs) by (nonlinear_arith)
                            requires
                                0 <= i < n,
                                szs >= 1,
                        ;
                        assert(tail@.subrange(i * szs, (i + 1) * szs) =~= buf@.subrange(
                            o + i * szs,
                            o + (i + 1) * szs,
                        ));
                    }
                }
                Ok(v)
            },
            Err(err) => Err(err),
        }
    }
}

impl ElfHead for ElfHead32 {
    type ProgHead = ProgHead32;

    type SectHead = SectHead32;

    open spec fn phoff_spec(&self) -> u64 {
        self.offs.e_phoff as u64
    }

    open spec fn shoff_spec(&self) -> u64 {
        self.offs.e_shoff as u64
    }

    open spec fn phnum_spec(&self) -> usize {
        self.tail.e_phnum as usize
    }

    open spec fn shnum_spec(&self) -> usize {
        self.tail.e_shnum as usize
    }

    fn phoff(&self) -> u64 {
        self.offs.e_phoff as u64
    }

    fn shoff(&self) -> u64 {
        self.offs.e_shoff as u64
    }

    fn phnum(&self) -> usize {
        self.tail.e_phnum as usize
    }

    fn shnum(&self) -> usize {
        self.tail.e_shnum as usize
    }
}

impl ElfHead for ElfHead64 {
    type ProgHead = ProgHead64;

    type SectHead = SectHead64;

    open spec fn phoff_spec(&self) -> u64 {
        self.offs.e_phoff
    }

    open spec fn shoff_spec(&self) -> u64 {
        self.offs.e_shoff
    }

    open spec fn phnum_spec(&self) -> usize {
        self.tail.e_phnum as usize
    }

    open spec fn shnum_spec(&self) -> usize {
        self.tail.e_shnum as usize
    }

    fn phoff(&self) -> u64 {
        self.offs.e_phoff
    }

    fn shoff(&self) -> u64 {
        self.offs.e_shoff
    }

    fn phnum(&self) -> usize {
        self.tail.e_phnum as usize
    }

    fn shnum(&self) -> usize {
        self.tail.e_shnum as usize
    }
}

/// The header of a parsed file, tagged by its class.
#[derive(Debug)]
pub enum ElfHeadType {
    EH32(ElfHead32),
    EH64(ElfHead64),
}

/// Why reading and validating the complete header of the file bytes `s`
/// fails, or `None` when it succeeds.  A buffer too short for the header
/// records is a reinterpretation failure; everything else follows the two
/// validation phases in order.
pub open spec fn spec_head_fault(s: Seq<u8>) -> Option<ParseFault> {
    if s.len() < 24 {
        Some(ParseFault::Transmute)
    } else if spec_phase1_fault(s) is Some {
        spec_phase1_fault(s)
    } else if s.len() < 48 {
        Some(ParseFault::Transmute)
    } else if s.len() < 64 {
        Some(ParseFault::Transmute)
    } else {
        spec_phase2_fault64(spec_elf_tail_at(s.subrange(48, 64)))
    }
}

impl ElfHeadType {
    /// Reads the ELF header off the head of `buf` and validates it.  Only
    /// a 64-bit header can come out: a 32-bit class is rejected in Phase 1,
    /// though the construction path for it is retained for symmetry.
    pub fn from(buf: &[u8]) -> (r: Result<ElfHeadType, ParseFault>)
        ensures
            r is Ok <==> spec_head_fault(buf@) is None,
            match r {
                Ok(ElfHeadType::EH64(eh)) => {
                    &&& buf@.len() >= 64
                    &&& eh.head.decodes(buf@.subrange(0, 24))
                    &&& eh.offs == spec_elf64_offs_at(buf@.subrange(24, 48))
                    &&& eh.tail == spec_elf_tail_at(buf@.subrange(48, 64))
                },
                Ok(ElfHeadType::EH32(_)) => false,
                Err(f) => Some(f) == spec_head_fault(buf@),
            },
    {
        let head = match ElfNonArchDep::from_buf(buf) {
            Ok((head, _)) => head,
            Err(_) => {
                return Err(ParseFault::Transmute);
            },
        };
        if let Err(f) = head.check(Ghost(buf@)) {
            return Err(f);
        }
        let eh = match head.e_ident.ei_class.known() {
            Ok(EIClass::Elf32Bit) => {
                let tail24 = match Elf32Offs::from_buf_at(buf, 24) {
                    Ok(offs) => offs,
                    Err(_) => {
                        return Err(ParseFault::Transmute);
                    },
                };
                let tail36 = match ElfNonArchDep2::from_buf_at(buf, 36) {
                    Ok(tail) => tail,
                    Err(_) => {
                        return Err(ParseFault::Transmute);
                    },
                };
                if let Err(f) = tail36.check(EIClass::Elf32Bit) {
                    return Err(f);
                }
                ElfHeadType::EH32(ElfHead32 { head, offs: tail24, tail: tail36 })
            },
            Ok(EIClass::Elf64Bit) => {
                let offs = match Elf64Offs::from_buf_at(buf, 24) {
                    Ok(offs) => offs,
                    Err(_) => {
                        return Err(ParseFault::Transmute);
                    },
                };
                let tail = match ElfNonArchDep2::from_buf_at(buf, 48) {
                    Ok(tail) => tail,
                    Err(_) => {
                        return Err(ParseFault::Transmute);
                    },
                };
                if let Err(f) = tail.check(EIClass::Elf64Bit) {
                    return Err(f);
                }
                ElfHeadType::EH64(ElfHead64 { head, offs, tail })
            },
            Err(_) => unreached(),
        };
        Ok(eh)
    }
}

/// The bytes of the section name ".symtab".
pub open spec fn spec_symtab_name() -> Seq<u8> {
    seq![0x2eu8, 0x73u8, 0x79u8, 0x6du8, 0x74u8, 0x61u8, 0x62u8]
}

/// The bytes of the section name ".strtab".
pub open spec fn spec_strtab_name() -> Seq<u8> {
    seq![0x2eu8, 0x73u8, 0x74u8, 0x72u8, 0x74u8, 0x61u8, 0x62u8]
}

fn symtab_name() -> (v: Vec<u8>)
    ensures
        v@ == spec_symtab_name(),
{
    let mut v: Vec<u8> = Vec::new();
    v.push(0x2e);
    v.push(0x73);
    v.push(0x79);
    v.push(0x6d);
    v.push(0x74);
    v.push(0x61);
    v.push(0x62);
    proof {
        assert(v@ =~= spec_symtab_name());
    }
    v
}

fn strtab_name() -> (v: Vec<u8>)
    ensures
        v@ == spec_strtab_name(),
{
    let mut v: Vec<u8> = Vec::new();
    v.push(0x2e);
    v.push(0x73);
    v.push(0x74);
    v.push(0x72);
    v.push(0x74);
    v.push(0x61);
    v.push(0x62);
    proof {
        assert(v@ =~= spec_strtab_name());
    }
    v
}

/// The first section at or after index `i` whose type field equals
/// `ty_raw` and whose name in `pool` equals `nm`.  Scanning faults when a
/// section with the right type has a name offset outside the pool; a
/// section with the right type but another name is skipped.
pub open spec fn spec_find_sh<T: SectHead>(
    shs: Seq<T>,
    pool: Seq<u8>,
    ty_raw: u32,
    nm: Seq<u8>,
    i: int,
) -> Result<Option<int>, ParseFault>
    decreases shs.len() - i,
    when 0 <= i <= shs.len()
{
    if i >= shs.len() {
        Ok(None)
    } else if shs[i].sh_type_raw_spec() == ty_raw {
        if !spec_lookup_ok(pool, shs[i].sh_name_spec() as int) {
            Err(ParseFault::BadStrOffset)
        } else if spec_lookup(pool, shs[i].sh_name_spec() as int) == nm {
            Ok(Some(i))
        } else {
            spec_find_sh(shs, pool, ty_raw, nm, i + 1)
        }
    } else {
        spec_find_sh(shs, pool, ty_raw, nm, i + 1)
    }
}

/// A faulted section search can only fault on a bad name offset, and a
/// found index lies in range and is of the wanted type.
pub proof fn lemma_find_sh_shape<T: SectHead>(
    shs: Seq<T>,
    pool: Seq<u8>,
    ty_raw: u32,
    nm: Seq<u8>,
    i: int,
)
    requires
        0 <= i <= shs.len(),
    ensures
        spec_find_sh(shs, pool, ty_raw, nm, i) is Err ==> spec_find_sh(shs, pool, ty_raw, nm, i)
            == Err::<Option<int>, ParseFault>(ParseFault::BadStrOffset),
        match spec_find_sh(shs, pool, ty_raw, nm, i) {
            Ok(Some(j)) => i <= j < shs.len() && shs[j].sh_type_raw_spec() == ty_raw,
            _ => true,
        },
    decreases shs.len() - i,
{
    if i < shs.len() {
        lemma_find_sh_shape(shs, pool, ty_raw, nm, i + 1);
    }
}

/// Scans the section headers for the first one with the given type and
/// name, returning its index.  Fails with `Elf` exactly when a section of
/// that type has a name offset the pool cannot resolve before any match.
pub fn find_sh_by<T: SectHead>(
    shs: &Vec<T>,
    sh_names: &Strings,
    sh_type: ShType,
    name: &[u8],
) -> (r: Result<Option<usize>, Error>)
    ensures
        r is Ok <==> spec_find_sh(shs@, sh_names@, spec_shtype_raw(sh_type), name@, 0) is Ok,
        match r {
            Ok(Some(j)) => j < shs@.len() && spec_find_sh(
                shs@,
                sh_names@,
                spec_shtype_raw(sh_type),
                name@,
                0,
            ) == Ok::<Option<int>, ParseFault>(Some(j as int)),
            Ok(None) => spec_find_sh(shs@, sh_names@, spec_shtype_raw(sh_type), name@, 0)
                == Ok::<Option<int>, ParseFault>(None),
            Err(err) => err == Error::Elf,
        },
{
    let ghost ty_raw = spec_shtype_raw(sh_type);
    let n = shs.len();
    let mut i: usize = 0;
    while i < n
        invariant
            0 <= i <= n,
            n == shs@.len(),
            spec_find_sh(shs@, sh_names@, ty_raw, name@, 0) == spec_find_sh(
                shs@,
                sh_names@,
                ty_raw,
                name@,
                i as int,
            ),
            ty_raw == spec_shtype_raw(sh_type),
        decreases n - i,
    {
        let sh = &shs[i];
        let ty_matches = match sh.sh_type() {
            Ok(t) => t == sh_type,
            Err(_) => false,
        };
        if ty_matches {
            match sh.name(sh_names) {
                Err(err) => {
                    return Err(err);
                },
                Ok(nm_bytes) => {
                    if crate::utils::bytes_eq(nm_bytes, name) {
                        return Ok(Some(i));
                    }
                },
            }
        }
        i = i + 1;
    }
    Ok(None)
}

/// Why resolving the section-name string pool fails: the declared index
/// must be in range and the section it names must carry a well-formed
/// string table.
pub open spec fn spec_sh_names_fault(
    s: Seq<u8>,
    t: ElfNonArchDep2,
    shs: Seq<SectHead64>,
) -> Option<ParseFault> {
    if t.e_shstrndx >= shs.len() {
        Some(ParseFault::ShstrndxRange)
    } else {
        spec_strings_fault(s, shs[t.e_shstrndx as int])
    }
}

/// Builds the section-name string pool named by the header tail's string
/// table index.
pub fn sh_names(buf: &[u8], eh_tail: &ElfNonArchDep2, shs: &Vec<SectHead64>) -> (r: Result<
    Strings,
    ParseFault,
>)
    ensures
        r is Ok <==> spec_sh_names_fault(buf@, *eh_tail, shs@) is None,
        match r {
            Ok(p) => p@ == spec_pool_at(buf@, shs@[eh_tail.e_shstrndx as int]),
            Err(f) => Some(f) == spec_sh_names_fault(buf@, *eh_tail, shs@),
        },
{
    let ndx = eh_tail.e_shstrndx as usize;
    if ndx >= shs.len() {
        return Err(ParseFault::ShstrndxRange);
    }
    Strings::from(buf, &shs[ndx])
}

/// The contents of the section `sh` inside the file bytes `s`.
pub open spec fn spec_pool_at(s: Seq<u8>, sh: SectHead64) -> Seq<u8> {
    s.subrange(sh.sh_offset as int, sh.sh_offset + sh.sh_size)
}

/// The symbol records of the symbol-table section `sh` inside the file
/// bytes `s`: one for every full record the section holds.
pub open spec fn spec_syms64(s: Seq<u8>, sh: SectHead64) -> Seq<Sym64> {
    Seq::new(
        (sh.sh_size as int / 24) as nat,
        |i: int| spec_sym64_at(s.subrange(sh.sh_offset + 24 * i, sh.sh_offset + 24 * (i + 1))),
    )
}

/// Why resolving the symbol table fails: a faulted name scan is passed
/// on; a found ".symtab" section must declare the 64-bit symbol record
/// size and its records must fit in the buffer.
pub open spec fn spec_symtab_fault(
    s: Seq<u8>,
    shs: Seq<SectHead64>,
    pool: Seq<u8>,
) -> Option<ParseFault> {
    match spec_find_sh(shs, pool, 0x2, spec_symtab_name(), 0) {
        Err(f) => Some(f),
        Ok(None) => None,
        Ok(Some(j)) => {
            let sh = shs[j];
            if sh.sh_entsize != 24 {
                Some(ParseFault::BadSymEntsize)
            } else if sh.sh_offset + (sh.sh_size as int / 24) * 24 > s.len() {
                Some(ParseFault::Transmute)
            } else {
                None
            }
        },
    }
}

/// Finds the first section of type `Symtab` named ".symtab" and reads its
/// symbol records; a file without one parses with no symbol table.
pub fn symtab(buf: &[u8], shs: &Vec<SectHead64>, sh_names: &Strings) -> (r: Result<
    Option<Vec<Sym64>>,
    ParseFault,
>)
    ensures
        r is Ok <==> spec_symtab_fault(buf@, shs@, sh_names@) is None,
        match r {
            Ok(opt) => match spec_find_sh(shs@, sh_names@, 0x2, spec_symtab_name(), 0) {
                Ok(Some(j)) => opt matches Some(v) && v@ == spec_syms64(buf@, shs@[j]),
                Ok(None) => opt is None,
                Err(_) => false,
            },
            Err(f) => Some(f) == spec_symtab_fault(buf@, shs@, sh_names@),
        },
{
    let nm = symtab_name();
    let found = match find_sh_by(shs, sh_names, ShType::Symtab, nm.as_slice()) {
        Ok(found) => found,
        Err(_) => {
            proof {
                lemma_find_sh_shape(shs@, sh_names@, 0x2, spec_symtab_name(), 0);
            }
            return Err(ParseFault::BadStrOffset);
        },
    };
    let j = match found {
        None => {
            return Ok(None);
        },
        Some(j) => j,
    };
    proof {
        lemma_find_sh_shape(shs@, sh_names@, 0x2, spec_symtab_name(), 0);
    }
    let sh = &shs[j];
    if sh.sh_entsize != 24 {
        return Err(ParseFault::BadSymEntsize);
    }
    let n: u64 = sh.sh_size / 24;
    proof {
        vstd::arithmetic::div_mod::lemma_fundamental_div_mod(sh.sh_size as int, 24);
        assert(n * 24 <= sh.sh_size) by (nonlinear_arith)
            requires
                n == sh.sh_size as int / 24,
                sh.sh_size == 24 * (sh.sh_size as int / 24) + sh.sh_size as int % 24,
                0 <= sh.sh_size as int % 24,
        ;
        assert(n <= n * 24) by (nonlinear_arith)
            requires
                n >= 0,
        ;
    }
    let l = buf.len();
    if sh.sh_offset > l as u64 || n * 24 > l as u64 - sh.sh_offset {
        return Err(ParseFault::Transmute);
    }
    let off = sh.sh_offset as usize;
    let tail = slice_subrange(buf, off, l);
    match Sym64::slice_from_buf(tail, n as usize) {
        Ok((v, _)) => {
            proof {
                let o = sh.sh_offset as int;
                assert forall|i: int| 0 <= i < v@.len() implies v@[i] == spec_sym64_at(
                    buf@.subrange(o + 24 * i, o + 24 * (i + 1)),
                ) by {
                    assert(0 <= 24 * i && 24 * i <= 24 * (i + 1) && 24 * (i + 1) <= n * 24)
                        by (nonlinear_arith)
                        requires
                            0 <= i < n,
                    ;
                    assert(i * 24 == 24 * i && (i + 1) * 24 == 24 * (i + 1)) by (nonlinear_arith);
                    assert(tail@.subrange(24 * i, 24 * (i + 1)) =~= buf@.subrange(
                        o + 24 * i,
                        o + 24 * (i + 1),
                    ));
                }
                assert(v@ =~= spec_syms64(buf@, shs@[j as int]));
            }
            Ok(Some(v))
        },
        Err(_) => Err(ParseFault::Transmute),
    }
}

/// Why resolving the symbol-name string pool fails: a faulted name scan
/// is passed on; a found ".strtab" section must carry a well-formed
/// string table.
pub open spec fn spec_sym_names_fault(
    s: Seq<u8>,
    shs: Seq<SectHead64>,
    pool: Seq<u8>,
) -> Option<ParseFault> {
    match spec_find_sh(shs, pool, 0x3, spec_strtab_name(), 0) {
        Err(f) => Some(f),
        Ok(None) => None,
        Ok(Some(j)) => spec_strings_fault(s, shs[j]),
    }
}

/// Finds the first section of type `Strtab` named ".strtab" and builds
/// the symbol-name string pool from it; a file without one parses with no
/// symbol names.
pub fn sym_names(buf: &[u8], shs: &Vec<SectHead64>, sh_names: &Strings) -> (r: Result<
    Option<Strings>,
    ParseFault,
>)
    ensures
        r is Ok <==> spec_sym_names_fault(buf@, shs@, sh_names@) is None,
        match r {
            Ok(opt) => match spec_find_sh(shs@, sh_names@, 0x3, spec_strtab_name(), 0) {
                Ok(Some(j)) => opt matches Some(p) && p@ == spec_pool_at(buf@, shs@[j]),
                Ok(None) => opt is None,
                Err(_) => false,
            },
            Err(f) => Some(f) == spec_sym_names_fault(buf@, shs@, sh_names@),
        },
{
    let nm = strtab_name();
    let found = match find_sh_by(shs, sh_names, ShType::Strtab, nm.as_slice()) {
        Ok(found) => found,
        Err(_) => {
            proof {
                lemma_find_sh_shape(shs@, sh_names@, 0x3, spec_strtab_name(), 0);
            }
            return Err(ParseFault::BadStrOffset);
        },
    };
    match found {
        None => Ok(None),
        Some(j) => {
            match Strings::from(buf, &shs[j]) {
                Ok(p) => Ok(Some(p)),
                Err(f) => Err(f),
            }
        },
    }
}

/// The program-header records of the table at `base` with `n` entries.
pub open spec fn spec_phs64(s: Seq<u8>, base: int, n: int) -> Seq<ProgHead64> {
    Seq::new(n as nat, |i: int| spec_prog_head64_at(s.subrange(base + 56 * i, base + 56 * (i + 1))))
}

/// The section-header records of the table at `base` with `n` entries.
pub open spec fn spec_sects64(s: Seq<u8>, base: int, n: int) -> Seq<SectHead64> {
    Seq::new(n as nat, |i: int| spec_sect_head64_at(s.subrange(base + 64 * i, base + 64 * (i + 1))))
}

/// Why parsing the file bytes `s` fails, or `None` when it succeeds: the
/// header is read and validated, then the program-header table must fit,
/// and when sections are declared, the section-header table must fit, the
/// section-name pool must build, and the optional symbol table and
/// symbol-name pool must be sound where present.
pub open spec fn spec_parse_fault(s: Seq<u8>) -> Option<ParseFault> {
    if spec_head_fault(s) is Some {
        spec_head_fault(s)
    } else {
        let offs = spec_elf64_offs_at(s.subrange(24, 48));
        let tail = spec_elf_tail_at(s.subrange(48, 64));
        if offs.e_phoff + tail.e_phnum * 56 > s.len() {
            Some(ParseFault::Transmute)
        } else if tail.e_shnum == 0 {
            None
        } else if offs.e_shoff + tail.e_shnum * 64 > s.len() {
            Some(ParseFault::Transmute)
        } else {
            let shs = spec_sects64(s, offs.e_shoff as int, tail.e_shnum as int);
            if spec_sh_names_fault(s, tail, shs) is Some {
                spec_sh_names_fault(s, tail, shs)
            } else {
                let pool = spec_pool_at(s, shs[tail.e_shstrndx as int]);
                if spec_symtab_fault(s, shs, pool) is Some {
                    spec_symtab_fault(s, shs, pool)
                } else if spec_sym_names_fault(s, shs, pool) is Some {
                    spec_sym_names_fault(s, shs, pool)
                } else {
                    None
                }
            }
        }
    }
}

/// A buffer is a well-formed ELF64 x86-64 little-endian file exactly when
/// parsing it succeeds.
pub open spec fn spec_elf64_wf(s: Seq<u8>) -> bool {
    spec_parse_fault(s) is None
}

/// A parsed 64-bit file: the header, the program headers, and, where the
/// file declares them, the section headers, the section-name pool, the
/// symbol table and the symbol-name pool.
#[derive(Debug, PartialEq)]
pub struct ElfFile64 {
    pub eh: ElfHead64,
    pub phs: Vec<ProgHead64>,
    pub shs: Option<Vec<SectHead64>>,
    pub sh_names: Option<Strings>,
    pub symtab: Option<Vec<Sym64>>,
    pub sym_names: Option<Strings>,
}

/// A parsed 32-bit file.  Phase 1 of validation rejects the 32-bit class,
/// so no value of this type is ever produced; the shape is retained for
/// symmetry with the 64-bit one.
#[derive(Debug)]
pub struct ElfFile32 {
    pub eh: ElfHead32,
    pub phs: Vec<ProgHead32>,
    pub shs: Option<Vec<SectHead32>>,
    pub sh_names: Option<Strings>,
    pub symtab: Option<Vec<Sym32>>,
    pub sym_names: Option<Strings>,
}

/// A parsed file of either class.
#[derive(Debug)]
pub enum ElfParse {
    Elf32(ElfFile32),
    Elf64(ElfFile64),
}

/// Every component of the parsed 64-bit file `f` holds exactly what the
/// file bytes `s` encode.
pub open spec fn spec_file64_ok(s: Seq<u8>, f: ElfFile64) -> bool {
    let offs = spec_elf64_offs_at(s.subrange(24, 48));
    let tail = spec_elf_tail_at(s.subrange(48, 64));
    let shs = spec_sects64(s, offs.e_shoff as int, tail.e_shnum as int);
    let pool = spec_pool_at(s, shs[tail.e_shstrndx as int]);
    &&& s.len() >= 64
    &&& f.eh.head.decodes(s.subrange(0, 24))
    &&& f.eh.offs == offs
    &&& f.eh.tail == tail
    &&& f.phs@ == spec_phs64(s, offs.e_phoff as int, tail.e_phnum as int)
    &&& (match f.shs {
        Option::None => tail.e_shnum == 0,
        Option::Some(v) => tail.e_shnum > 0 && v@ == shs,
    })
    &&& (match f.sh_names {
        Option::None => tail.e_shnum == 0,
        Option::Some(p) => tail.e_shnum > 0 && p@ == pool,
    })
    &&& (if tail.e_shnum == 0 {
        f.symtab is None && f.sym_names is None
    } else {
        &&& (match spec_find_sh(shs, pool, 0x2, spec_symtab_name(), 0) {
            Ok(Some(j)) => f.symtab matches Some(v) && v@ == spec_syms64(s, shs[j]),
            Ok(None) => f.symtab is None,
            Err(_) => false,
        })
        &&& (match spec_find_sh(shs, pool, 0x3, spec_strtab_name(), 0) {
            Ok(Some(j)) => f.sym_names matches Some(p) && p@ == spec_pool_at(s, shs[j]),
            Ok(None) => f.sym_names is None,
            Err(_) => false,
        })
    })
}

/// Parses an ELF byte buffer into its validated components.  Parsing
/// succeeds exactly on the well-formed ELF64 x86-64 little-endian
/// buffers, and then every component holds exactly what the bytes
/// encode; otherwise the first fault of the pipeline comes back.
pub fn parse(buf: &[u8]) -> (r: Result<ElfParse, ParseFault>)
    ensures
        r is Ok <==> spec_elf64_wf(buf@),
        match r {
            Ok(ElfParse::Elf64(f)) => spec_file64_ok(buf@, f),
            Ok(ElfParse::Elf32(_)) => false,
            Err(f) => Some(f) == spec_parse_fault(buf@),
        },
{
    let eh_t = match ElfHeadType::from(buf) {
        Ok(eh_t) => eh_t,
        Err(f) => {
            return Err(f);
        },
    };
    match eh_t {
        ElfHeadType::EH32(_) => unreached(),
        ElfHeadType::EH64(eh) => {
            let phs = match eh.prog_headers(buf) {
                Ok(v) => v,
                Err(_) => {
                    return Err(ParseFault::Transmute);
                },
            };
            proof {
                assert(phs@ =~= spec_phs64(
                    buf@,
                    eh.offs.e_phoff as int,
                    eh.tail.e_phnum as int,
                ));
            }
            if eh.tail.e_shnum == 0 {
                return Ok(
                    ElfParse::Elf64(
                        ElfFile64 {
                            eh,
                            phs,
                            shs: None,
                            sh_names: None,
                            symtab: None,
                            sym_names: None,
                        },
                    ),
                );
            }
            let shs = match eh.sect_headers(buf) {
                Ok(v) => v,
                Err(_) => {
                    return Err(ParseFault::Transmute);
                },
            };
            proof {
                assert(shs@ =~= spec_sects64(
                    buf@,
                    eh.offs.e_shoff as int,
                    eh.tail.e_shnum as int,
                ));
            }
            let names = match sh_names(buf, &eh.tail, &shs) {
                Ok(p) => p,
                Err(f) => {
                    return Err(f);
                },
            };
            let syms = match symtab(buf, &shs, &names) {
                Ok(opt) => opt,
                Err(f) => {
                    return Err(f);
                },
            };
            let sym_nms = match sym_names(buf, &shs, &names) {
                Ok(opt) => opt,
                Err(f) => {
                    return Err(f);
                },
            };
            Ok(
                ElfParse::Elf64(
                    ElfFile64 {
                        eh,
                        phs,
                        shs: Some(shs),
                        sh_names: Some(names),
                        symtab: syms,
                        sym_names: sym_nms,
                    },
                ),
            )
        },
    }
}

/// Parses an ELF byte buffer as `parse` does, writing the one-line
/// diagnostic of a validation fault to standard error and folding the
/// fault into the error taxonomy: `Transmute` for a reinterpretation
/// failure, `Elf` for everything else.
pub fn with(buf: &[u8]) -> (r: Result<ElfParse, Error>)
    ensures
        r is Ok <==> spec_elf64_wf(buf@),
        match r {
            Ok(ElfParse::Elf64(f)) => spec_file64_ok(buf@, f),
            Ok(ElfParse::Elf32(_)) => false,
            Err(err) => match spec_parse_fault(buf@) {
                Some(f) => err == crate::error::spec_fault_error(f),
                None => false,
            },
        },
{
    match parse(buf) {
        Ok(p) => Ok(p),
        Err(f) => match f {
            ParseFault::Transmute => Err(Error::Transmute),
            // The name lookup wrote its own line when the scan hit the
            // bad offset; writing it again would break the one-line rule.
            ParseFault::BadStrOffset => Err(Error::Elf),
            _ => e(f.message()),
        },
    }
}

/// Validation rejects every buffer whose class is not 64-bit, whose data
/// encoding is not little-endian, or whose machine is not x86-64, and a
/// Phase 1 failure always surfaces as the `Elf` error.
pub proof fn lemma_validation_rejects(s: Seq<u8>)
    requires
        s.len() >= 24,
    ensures
        s[4] != 0x02 ==> spec_phase1_fault(s) is Some,
        s[5] != 0x01 ==> spec_phase1_fault(s) is Some,
        spec_u16_at(s, 18) != 0x3E ==> spec_phase1_fault(s) is Some,
        spec_phase1_fault(s) is Some ==> spec_parse_fault(s) is Some,
        spec_phase1_fault(s) matches Some(f) ==> crate::error::spec_fault_error(f) == Error::Elf,
{
}

} // verus!
