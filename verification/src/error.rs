//! The error taxonomy and its encoding as a process exit status.

use vstd::prelude::*;

verus! {

/// Every way the loader can fail.  Syscall kinds carry the raw signed errno
/// as the kernel returned it; validation kinds carry no payload.
#[derive(Debug, Clone, Copy, PartialEq, Eq, Structural)]
pub enum Error {
    Open(i32),
    Write(i32),
    Read(i32),
    Fstat(i32),
    Fmt,
    Mmap(i32),
    Elf,
    Cli,
    Utf8Error,
    Transmute,
}

/// The high nibble of the exit status that identifies an error kind.
pub open spec fn spec_kind_nibble(e: Error) -> int {
    match e {
        Error::Open(_) => 0,
        Error::Write(_) => 1,
        Error::Read(_) => 2,
        Error::Fstat(_) => 3,
        Error::Fmt => 4,
        Error::Elf => 5,
        Error::Cli => 6,
        Error::Utf8Error => 7,
        Error::Transmute => 8,
        Error::Mmap(_) => 9,
    }
}

/// The errno payload of a syscall error, or 0 for the kinds without one.
pub open spec fn spec_errno(e: Error) -> int {
    match e {
        Error::Open(n) => n as int,
        Error::Write(n) => n as int,
        Error::Read(n) => n as int,
        Error::Fstat(n) => n as int,
        Error::Mmap(n) => n as int,
        _ => 0,
    }
}

impl Error {
    /// The exit status of a failed run: the high nibble identifies the error
    /// kind, the low nibble carries `errno mod 16` for syscall errors.
    pub fn to_ret(&self) -> (r: u8)
        ensures
            r == 16 * spec_kind_nibble(*self) + spec_errno(*self) % 16,
    {
        match self {
            Error::Open(errno) => 0 * 16 + errno_nibble(*errno),
            Error::Write(errno) => 1 * 16 + errno_nibble(*errno),
            Error::Read(errno) => 2 * 16 + errno_nibble(*errno),
            Error::Fstat(errno) => 3 * 16 + errno_nibble(*errno),
            Error::Fmt => 4 * 16,
            Error::Elf => 5 * 16,
            Error::Cli => 6 * 16,
            Error::Utf8Error => 7 * 16,
            Error::Transmute => 8 * 16,
            Error::Mmap(errno) => 9 * 16 + errno_nibble(*errno),
        }
    }
}

/// Every way validation or reinterpretation of an ELF buffer can fail.
/// Each fault names the first check that went wrong; `to_error` folds it
/// into the coarse taxonomy above.
#[derive(Debug, Clone, Copy, PartialEq, Eq, Structural)]
pub enum ParseFault {
    BadMagic,
    Class32,
    BadClass,
    BigEndian,
    BadData,
    BadIdentVersion,
    BadPad,
    BadMachine,
    BadVersion,
    BadEhsize,
    BadPhentsize,
    BadShentsize,
    ShstrndxRange,
    UnknownShType,
    NotStrtab,
    StrtabBounds,
    StrtabFrame,
    BadStrOffset,
    BadSymEntsize,
    Transmute,
}

/// The diagnostic line a fault is reported with.
pub open spec fn spec_fault_message(f: ParseFault) -> Seq<char> {
    match f {
        ParseFault::BadMagic => "invalid elf_header.e_ident.ei_mag"@,
        ParseFault::Class32 => "quack doesn't support 32-bit elfs"@,
        ParseFault::BadClass => "invalid elf_header.e_ident.ei_class"@,
        ParseFault::BigEndian => "quack doesn't support big-endian elfs"@,
        ParseFault::BadData => "invalid elf_header.e_ident.ei_class"@,
        ParseFault::BadIdentVersion => "invalid elf_header.e_ident.ei_version"@,
        ParseFault::BadPad => "invalid elf.header.e_ident.ei_pad"@,
        ParseFault::BadMachine => "quack doesn't support other archs than x86-64"@,
        ParseFault::BadVersion => "invalid elf_header.e_version"@,
        ParseFault::BadEhsize => "elf_header.e_ehsize invalid"@,
        ParseFault::BadPhentsize => "elf_header.e_phentsize invalid"@,
        ParseFault::BadShentsize => "elf_header.e_shentsize invalid"@,
        ParseFault::ShstrndxRange => "elf_header.e_shstrndx out of range"@,
        ParseFault::UnknownShType => "unknown sh_type"@,
        ParseFault::NotStrtab => "invalid sh_type for a string section"@,
        ParseFault::StrtabBounds => "buffer is too small to contain the strtab!"@,
        ParseFault::StrtabFrame => "malformed string section"@,
        ParseFault::BadStrOffset => "invalid offset"@,
        ParseFault::BadSymEntsize => "invalid symtab entity size"@,
        ParseFault::Transmute => "buffer too short for a record"@,
    }
}

/// The coarse error a fault maps to: `Transmute` for a reinterpretation
/// failure, `Elf` for every validation failure.
pub open spec fn spec_fault_error(f: ParseFault) -> Error {
    if f is Transmute {
        Error::Transmute
    } else {
        Error::Elf
    }
}

impl ParseFault {
    /// The one-line diagnostic for this fault.
    pub fn message(&self) -> (r: &'static str)
        ensures
            r@ == spec_fault_message(*self),
    {
        match self {
            ParseFault::BadMagic => "invalid elf_header.e_ident.ei_mag",
            ParseFault::Class32 => "quack doesn't support 32-bit elfs",
            ParseFault::BadClass => "invalid elf_header.e_ident.ei_class",
            ParseFault::BigEndian => "quack doesn't support big-endian elfs",
            ParseFault::BadData => "invalid elf_header.e_ident.ei_class",
            ParseFault::BadIdentVersion => "invalid elf_header.e_ident.ei_version",
            ParseFault::BadPad => "invalid elf.header.e_ident.ei_pad",
            ParseFault::BadMachine => "quack doesn't support other archs than x86-64",
            ParseFault::BadVersion => "invalid elf_header.e_version",
            ParseFault::BadEhsize => "elf_header.e_ehsize invalid",
            ParseFault::BadPhentsize => "elf_header.e_phentsize invalid",
            ParseFault::BadShentsize => "elf_header.e_shentsize invalid",
            ParseFault::ShstrndxRange => "elf_header.e_shstrndx out of range",
            ParseFault::UnknownShType => "unknown sh_type",
            ParseFault::NotStrtab => "invalid sh_type for a string section",
            ParseFault::StrtabBounds => "buffer is too small to contain the strtab!",
            ParseFault::StrtabFrame => "malformed string section",
            ParseFault::BadStrOffset => "invalid offset",
            ParseFault::BadSymEntsize => "invalid symtab entity size",
            ParseFault::Transmute => "buffer too short for a record",
        }
    }

    /// The place of this fault in the error taxonomy.
    pub fn to_error(&self) -> (r: Error)
        ensures
            r == spec_fault_error(*self),
    {
        match self {
            ParseFault::Transmute => Error::Transmute,
            _ => Error::Elf,
        }
    }
}

/// `errno mod 16` as a nonnegative nibble, also for negative errno values.
fn errno_nibble(errno: i32) -> (r: u8)
    ensures
        r == errno as int % 16,
{
    let m: i32 = errno % 16;
    if m < 0 {
        (m + 16) as u8
    } else {
        m as u8
    }
}

} // verus!
