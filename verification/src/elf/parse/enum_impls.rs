//! Decoding of the unchecked enumerated fields: each recognises its
//! exhaustive value set and hands the raw integer back otherwise, so that
//! a round-trip through the raw bytes is lossless.

use crate::elf::parse::ffi_types::{
    spec_class_name, spec_class_raw, spec_data_name, spec_data_raw, spec_etype_name,
    spec_etype_raw, spec_machine_name, spec_machine_raw, spec_osabi_name, spec_osabi_raw,
    spec_ptype_name, spec_ptype_raw, spec_shtype_name, spec_shtype_raw, EIClass, EIClassUnchecked,
    EIData, EIDataUnchecked, EIOsAbi, EIOsAbiUnchecked, EMachine, EMachineUnchecked, EType,
    ETypeUnchecked, PType, PTypeUnchecked, ShType, ShTypeUnchecked,
};
use crate::utils::{hex_str, spec_hex, ToKnown};
use vstd::prelude::*;

verus! {

impl ToKnown for EIClassUnchecked {
    type Known = EIClass;

    type Unknown = u8;

    open spec fn raw_spec(&self) -> u8 {
        self.raw
    }

    open spec fn known_spec(&self) -> Option<EIClass> {
        if self.raw == 0x01 {
            Some(EIClass::Elf32Bit)
        } else if self.raw == 0x02 {
            Some(EIClass::Elf64Bit)
        } else {
            None
        }
    }

    open spec fn raw_of_spec(k: EIClass) -> u8 {
        spec_class_raw(k)
    }

    fn known(&self) -> Result<EIClass, u8> {
        match self.raw {
            0x01 => Ok(EIClass::Elf32Bit),
            0x02 => Ok(EIClass::Elf64Bit),
            u => Err(u),
        }
    }

    fn unknown(&self) -> u8 {
        self.raw
    }
}

impl Default for EIClassUnchecked {
    /// The all-zero field, which decodes to no class.
    fn default() -> (r: Self)
        ensures
            r.raw == 0,
    {
        EIClassUnchecked { raw: 0 }
    }
}

impl ToKnown for EIDataUnchecked {
    type Known = EIData;

    type Unknown = u8;

    open spec fn raw_spec(&self) -> u8 {
        self.raw
    }

    open spec fn known_spec(&self) -> Option<EIData> {
        if self.raw == 0x01 {
            Some(EIData::LittleEndian)
        } else if self.raw == 0x02 {
            Some(EIData::BigEndian)
        } else {
            None
        }
    }

    open spec fn raw_of_spec(k: EIData) -> u8 {
        spec_data_raw(k)
    }

    fn known(&self) -> Result<EIData, u8> {
        match self.raw {
            0x01 => Ok(EIData::LittleEndian),
            0x02 => Ok(EIData::BigEndian),
            u => Err(u),
        }
    }

    fn unknown(&self) -> u8 {
        self.raw
    }
}

impl Default for EIDataUnchecked {
    /// The all-zero field, which decodes to no data encoding.
    fn default() -> (r: Self)
        ensures
            r.raw == 0,
    {
        EIDataUnchecked { raw: 0 }
    }
}

impl ToKnown for EIOsAbiUnchecked {
    type Known = EIOsAbi;

    type Unknown = u8;

    open spec fn raw_spec(&self) -> u8 {
        self.raw
    }

    open spec fn known_spec(&self) -> Option<EIOsAbi> {
        if self.raw == 0x00 {
            Some(EIOsAbi::SystemV)
        } else if self.raw == 0x03 {
            Some(EIOsAbi::Linux)
        } else {
            None
        }
    }

    open spec fn raw_of_spec(k: EIOsAbi) -> u8 {
        spec_osabi_raw(k)
    }

    fn known(&self) -> Result<EIOsAbi, u8> {
        match self.raw {
            0x00 => Ok(EIOsAbi::SystemV),
            0x03 => Ok(EIOsAbi::Linux),
            u => Err(u),
        }
    }

    fn unknown(&self) -> u8 {
        self.raw
    }
}

impl Default for EIOsAbiUnchecked {
    /// The all-zero field, which decodes to the System V OS/ABI.
    fn default() -> (r: Self)
        ensures
            r.raw == 0,
    {
        EIOsAbiUnchecked { raw: 0 }
    }
}

impl ToKnown for ETypeUnchecked {
    type Known = EType;

    type Unknown = u16;

    open spec fn raw_spec(&self) -> u16 {
        self.raw
    }

    open spec fn known_spec(&self) -> Option<EType> {
        if self.raw == 0x00 {
            Some(EType::NoType)
        } else if self.raw == 0x01 {
            Some(EType::Rel)
        } else if self.raw == 0x02 {
            Some(EType::Exec)
        } else if self.raw == 0x03 {
            Some(EType::Dyn)
        } else if self.raw == 0x04 {
            Some(EType::Core)
        } else {
            None
        }
    }

    open spec fn raw_of_spec(k: EType) -> u16 {
        spec_etype_raw(k)
    }

    fn known(&self) -> Result<EType, u16> {
        match self.raw {
            0x00 => Ok(EType::NoType),
            0x01 => Ok(EType::Rel),
            0x02 => Ok(EType::Exec),
            0x03 => Ok(EType::Dyn),
            0x04 => Ok(EType::Core),
            u => Err(u),
        }
    }

    fn unknown(&self) -> u16 {
        self.raw
    }
}

impl Default for ETypeUnchecked {
    /// The all-zero field, which decodes to no file type.
    fn default() -> (r: Self)
        ensures
            r.raw == 0,
    {
        ETypeUnchecked { raw: 0 }
    }
}

impl ToKnown for EMachineUnchecked {
    type Known = EMachine;

    type Unknown = u16;

    open spec fn raw_spec(&self) -> u16 {
        self.raw
    }

    open spec fn known_spec(&self) -> Option<EMachine> {
        if self.raw == 0x03 {
            Some(EMachine::X86)
        } else if self.raw == 0x3E {
            Some(EMachine::X86_64)
        } else if self.raw == 0xB7 {
            Some(EMachine::Aarch64)
        } else {
            None
        }
    }

    open spec fn raw_of_spec(k: EMachine) -> u16 {
        spec_machine_raw(k)
    }

    fn known(&self) -> Result<EMachine, u16> {
        match self.raw {
            0x03 => Ok(EMachine::X86),
            0x3E => Ok(EMachine::X86_64),
            0xB7 => Ok(EMachine::Aarch64),
            u => Err(u),
        }
    }

    fn unknown(&self) -> u16 {
        self.raw
    }
}

impl Default for EMachineUnchecked {
    /// The all-zero field, which decodes to no machine.
    fn default() -> (r: Self)
        ensures
            r.raw == 0,
    {
        EMachineUnchecked { raw: 0 }
    }
}

impl ToKnown for PTypeUnchecked {
    type Known = PType;

    type Unknown = u32;

    open spec fn raw_spec(&self) -> u32 {
        self.raw
    }

    open spec fn known_spec(&self) -> Option<PType> {
        if self.raw == 0x00 {
            Some(PType::Null)
        } else if self.raw == 0x01 {
            Some(PType::Load)
        } else if self.raw == 0x02 {
            Some(PType::Dynamic)
        } else if self.raw == 0x03 {
            Some(PType::Interp)
        } else if self.raw == 0x04 {
            Some(PType::Note)
        } else if self.raw == 0x05 {
            Some(PType::Shlib)
        } else if self.raw == 0x06 {
            Some(PType::Phdr)
        } else if self.raw == 0x07 {
            Some(PType::Tls)
        } else if self.raw == 0x6474e550 {
            Some(PType::GnuEhFrame)
        } else if self.raw == 0x6474e551 {
            Some(PType::GnuStack)
        } else if self.raw == 0x6474e552 {
            Some(PType::GnuRelro)
        } else {
            None
        }
    }

    open spec fn raw_of_spec(k: PType) -> u32 {
        spec_ptype_raw(k)
    }

    fn known(&self) -> Result<PType, u32> {
        match self.raw {
            0x00 => Ok(PType::Null),
            0x01 => Ok(PType::Load),
            0x02 => Ok(PType::Dynamic),
            0x03 => Ok(PType::Interp),
            0x04 => Ok(PType::Note),
            0x05 => Ok(PType::Shlib),
            0x06 => Ok(PType::Phdr),
            0x07 => Ok(PType::Tls),
            0x6474e550 => Ok(PType::GnuEhFrame),
            0x6474e551 => Ok(PType::GnuStack),
            0x6474e552 => Ok(PType::GnuRelro),
            u => Err(u),
        }
    }

    fn unknown(&self) -> u32 {
        self.raw
    }
}

impl Default for PTypeUnchecked {
    /// The all-zero field, which decodes to the null program-header type.
    fn default() -> (r: Self)
        ensures
            r.raw == 0,
    {
        PTypeUnchecked { raw: 0 }
    }
}

impl ToKnown for ShTypeUnchecked {
    type Known = ShType;

    type Unknown = u32;

    open spec fn raw_spec(&self) -> u32 {
        self.raw
    }

    open spec fn known_spec(&self) -> Option<ShType> {
        if self.raw == 0x0 {
            Some(ShType::Null)
        } else if self.raw == 0x1 {
            Some(ShType::Progbits)
        } else if self.raw == 0x2 {
            Some(ShType::Symtab)
        } else if self.raw == 0x3 {
            Some(ShType::Strtab)
        } else if self.raw == 0x4 {
            Some(ShType::Rela)
        } else if self.raw == 0x5 {
            Some(ShType::Hash)
        } else if self.raw == 0x6 {
            Some(ShType::Dynamic)
        } else if self.raw == 0x7 {
            Some(ShType::Note)
        } else if self.raw == 0x8 {
            Some(ShType::Nobits)
        } else if self.raw == 0x9 {
            Some(ShType::Rel)
        } else if self.raw == 0x0A {
            Some(ShType::Shlib)
        } else if self.raw == 0x0B {
            Some(ShType::Dynsym)
        } else if self.raw == 0x0E {
            Some(ShType::InitArray)
        } else if self.raw == 0x0F {
            Some(ShType::FiniArray)
        } else if self.raw == 0x10 {
            Some(ShType::PreinitArray)
        } else if self.raw == 0x11 {
            Some(ShType::Group)
        } else if self.raw == 0x12 {
            Some(ShType::SymtabShndx)
        } else if self.raw == 0x13 {
            Some(ShType::Num)
        } else if self.raw == 0x6FFFFFF6 {
            Some(ShType::GnuHash)
        } else if self.raw == 0x6FFFFFFD {
            Some(ShType::GnuVerdef)
        } else if self.raw == 0x6FFFFFFE {
            Some(ShType::GnuVerneed)
        } else if self.raw == 0x6FFFFFFF {
            Some(ShType::GnuVersym)
        } else {
            None
        }
    }

    open spec fn raw_of_spec(k: ShType) -> u32 {
        spec_shtype_raw(k)
    }

    fn known(&self) -> Result<ShType, u32> {
        match self.raw {
            0x0 => Ok(ShType::Null),
            0x1 => Ok(ShType::Progbits),
            0x2 => Ok(ShType::Symtab),
            0x3 => Ok(ShType::Strtab),
            0x4 => Ok(ShType::Rela),
            0x5 => Ok(ShType::Hash),
            0x6 => Ok(ShType::Dynamic),
            0x7 => Ok(ShType::Note),
            0x8 => Ok(ShType::Nobits),
            0x9 => Ok(ShType::Rel),
            0x0A => Ok(ShType::Shlib),
            0x0B => Ok(ShType::Dynsym),
            0x0E => Ok(ShType::InitArray),
            0x0F => Ok(ShType::FiniArray),
            0x10 => Ok(ShType::PreinitArray),
            0x11 => Ok(ShType::Group),
            0x12 => Ok(ShType::SymtabShndx),
            0x13 => Ok(ShType::Num),
            0x6FFFFFF6 => Ok(ShType::GnuHash),
            0x6FFFFFFD => Ok(ShType::GnuVerdef),
            0x6FFFFFFE => Ok(ShType::GnuVerneed),
            0x6FFFFFFF => Ok(ShType::GnuVersym),
            u => Err(u),
        }
    }

    fn unknown(&self) -> u32 {
        self.raw
    }
}

impl Default for ShTypeUnchecked {
    /// The all-zero field, which decodes to the null section type.
    fn default() -> (r: Self)
        ensures
            r.raw == 0,
    {
        ShTypeUnchecked { raw: 0 }
    }
}

/// The rendering of a `EIClassUnchecked` field: the symbolic name when the
/// value is recognised, `UnknownEIClass(0xHEX)` otherwise.
pub open spec fn spec_describe_class(x: EIClassUnchecked) -> Seq<char> {
    match x.known_spec() {
        Some(v) => spec_class_name(v),
        None => "UnknownEIClass(0x"@ + spec_hex(x.raw as int) + ")"@,
    }
}

impl EIClassUnchecked {
    /// Renders this field: the symbolic name when the value is
    /// recognised, the raw value in hex otherwise.
    pub fn describe(&self) -> (r: String)
        ensures
            r@ == spec_describe_class(*self),
    {
        match self.known() {
            Ok(v) => String::from_str(v.name_str()),
            Err(u) => String::from_str("UnknownEIClass(0x").concat(hex_str(u as u64).as_str()).concat(
                ")",
            ),
        }
    }
}

/// The rendering of a `EIDataUnchecked` field: the symbolic name when the
/// value is recognised, `UnknownEIData(0xHEX)` otherwise.
pub open spec fn spec_describe_data(x: EIDataUnchecked) -> Seq<char> {
    match x.known_spec() {
        Some(v) => spec_data_name(v),
        None => "UnknownEIData(0x"@ + spec_hex(x.raw as int) + ")"@,
    }
}

impl EIDataUnchecked {
    /// Renders this field: the symbolic name when the value is
    /// recognised, the raw value in hex otherwise.
    pub fn describe(&self) -> (r: String)
        ensures
            r@ == spec_describe_data(*self),
    {
        match self.known() {
            Ok(v) => String::from_str(v.name_str()),
            Err(u) => String::from_str("UnknownEIData(0x").concat(hex_str(u as u64).as_str()).concat(
                ")",
            ),
        }
    }
}

/// The rendering of a `EIOsAbiUnchecked` field: the symbolic name when the
/// value is recognised, `UnknownEIOsAbi(0xHEX)` otherwise.
pub open spec fn spec_describe_osabi(x: EIOsAbiUnchecked) -> Seq<char> {
    match x.known_spec() {
        Some(v) => spec_osabi_name(v),
        None => "UnknownEIOsAbi(0x"@ + spec_hex(x.raw as int) + ")"@,
    }
}

impl EIOsAbiUnchecked {
    /// Renders this field: the symbolic name when the value is
    /// recognised, the raw value in hex otherwise.
    pub fn describe(&self) -> (r: String)
        ensures
            r@ == spec_describe_osabi(*self),
    {
        match self.known() {
            Ok(v) => String::from_str(v.name_str()),
            Err(u) => String::from_str("UnknownEIOsAbi(0x").concat(hex_str(u as u64).as_str()).concat(
                ")",
            ),
        }
    }
}

/// The rendering of a `ETypeUnchecked` field: the symbolic name when the
/// value is recognised, `UnknownEType(0xHEX)` otherwise.
pub open spec fn spec_describe_etype(x: ETypeUnchecked) -> Seq<char> {
    match x.known_spec() {
        Some(v) => spec_etype_name(v),
        None => "UnknownEType(0x"@ + spec_hex(x.raw as int) + ")"@,
    }
}

impl ETypeUnchecked {
    /// Renders this field: the symbolic name when the value is
    /// recognised, the raw value in hex otherwise.
    pub fn describe(&self) -> (r: String)
        ensures
            r@ == spec_describe_etype(*self),
    {
        match self.known() {
            Ok(v) => String::from_str(v.name_str()),
            Err(u) => String::from_str("UnknownEType(0x").concat(hex_str(u as u64).as_str()).concat(
                ")",
            ),
        }
    }
}

/// The rendering of a `EMachineUnchecked` field: the symbolic name when the
/// value is recognised, `UnknownEMachine(0xHEX)` otherwise.
pub open spec fn spec_describe_machine(x: EMachineUnchecked) -> Seq<char> {
    match x.known_spec() {
        Some(v) => spec_machine_name(v),
        None => "UnknownEMachine(0x"@ + spec_hex(x.raw as int) + ")"@,
    }
}

impl EMachineUnchecked {
    /// Renders this field: the symbolic name when the value is
    /// recognised, the raw value in hex otherwise.
    pub fn describe(&self) -> (r: String)
        ensures
            r@ == spec_describe_machine(*self),
    {
        match self.known() {
            Ok(v) => String::from_str(v.name_str()),
            Err(u) => String::from_str("UnknownEMachine(0x").concat(hex_str(u as u64).as_str()).concat(
                ")",
            ),
        }
    }
}

/// The rendering of a `PTypeUnchecked` field: the symbolic name when the
/// value is recognised, `UnknownPType(0xHEX)` otherwise.
pub open spec fn spec_describe_ptype(x: PTypeUnchecked) -> Seq<char> {
    match x.known_spec() {
        Some(v) => spec_ptype_name(v),
        None => "UnknownPType(0x"@ + spec_hex(x.raw as int) + ")"@,
    }
}

impl PTypeUnchecked {
    /// Renders this field: the symbolic name when the value is
    /// recognised, the raw value in hex otherwise.
    pub fn describe(&self) -> (r: String)
        ensures
            r@ == spec_describe_ptype(*self),
    {
        match self.known() {
            Ok(v) => String::from_str(v.name_str()),
            Err(u) => String::from_str("UnknownPType(0x").concat(hex_str(u as u64).as_str()).concat(
                ")",
            ),
        }
    }
}

/// The rendering of a `ShTypeUnchecked` field: the symbolic name when the
/// value is recognised, `UnknownShType(0xHEX)` otherwise.
pub open spec fn spec_describe_shtype(x: ShTypeUnchecked) -> Seq<char> {
    match x.known_spec() {
        Some(v) => spec_shtype_name(v),
        None => "UnknownShType(0x"@ + spec_hex(x.raw as int) + ")"@,
    }
}

impl ShTypeUnchecked {
    /// Renders this field: the symbolic name when the value is
    /// recognised, the raw value in hex otherwise.
    pub fn describe(&self) -> (r: String)
        ensures
            r@ == spec_describe_shtype(*self),
    {
        match self.known() {
            Ok(v) => String::from_str(v.name_str()),
            Err(u) => String::from_str("UnknownShType(0x").concat(hex_str(u as u64).as_str()).concat(
                ")",
            ),
        }
    }
}

} // verus!
