//! End-to-end parsing of synthetic ELF images: the well-formed ones
//! parse into their components, and each malformed one fails with the
//! fault of the first check it breaks.

use quack::elf::parse::ffi_types::PType;
use quack::elf::parse::{parse, with, ElfParse, ProgHead, SectHead, StBind, StType, Sym};
use quack::error::{Error, ParseFault};

fn set_u16(b: &mut Vec<u8>, off: usize, v: u16) {
    let x = v.to_le_bytes();
    b[off] = x[0];
    b[off + 1] = x[1];
}

fn set_u32(b: &mut Vec<u8>, off: usize, v: u32) {
    let x = v.to_le_bytes();
    for i in 0..4 {
        b[off + i] = x[i];
    }
}

fn set_u64(b: &mut Vec<u8>, off: usize, v: u64) {
    let x = v.to_le_bytes();
    for i in 0..8 {
        b[off + i] = x[i];
    }
}

/// A 64-byte ELF64 x86-64 little-endian header with the given table
/// shape, padded with zeroes to `len` bytes.
fn base_image(len: usize, phoff: u64, phnum: u16, shoff: u64, shnum: u16, shstrndx: u16) -> Vec<u8> {
    let mut b = vec![0u8; len];
    b[0] = 0x7F;
    b[1] = 0x45;
    b[2] = 0x4C;
    b[3] = 0x46;
    b[4] = 2; // 64-bit
    b[5] = 1; // little-endian
    b[6] = 1; // identification version
    set_u16(&mut b, 16, 2); // e_type: executable
    set_u16(&mut b, 18, 0x3E); // e_machine: x86-64
    set_u32(&mut b, 20, 1); // e_version
    set_u64(&mut b, 32, phoff);
    set_u64(&mut b, 40, shoff);
    set_u16(&mut b, 52, 64); // e_ehsize
    set_u16(&mut b, 54, 56); // e_phentsize
    set_u16(&mut b, 56, phnum);
    set_u16(&mut b, 58, 64); // e_shentsize
    set_u16(&mut b, 60, shnum);
    set_u16(&mut b, 62, shstrndx);
    b
}

/// Writes one 64-bit section header at byte offset `at`.
fn set_sect(b: &mut Vec<u8>, at: usize, name: u32, ty: u32, offset: u64, size: u64, entsize: u64) {
    set_u32(b, at, name);
    set_u32(b, at + 4, ty);
    set_u64(b, at + 24, offset);
    set_u64(b, at + 32, size);
    set_u64(b, at + 56, entsize);
}

/// Writes the section-name pool "\0.shstrtab\0.symtab\0.strtab\0" at
/// byte offset 64; names sit at offsets 1, 11 and 19 of the pool.
fn set_name_pool(b: &mut Vec<u8>) {
    let names = b"\0.shstrtab\0.symtab\0.strtab\0";
    for (i, &c) in names.iter().enumerate() {
        b[64 + i] = c;
    }
}

/// An image with a 147-entry ".symtab", a ".strtab" of one NUL byte, and
/// the section-name pool, mirroring the shape of a real static binary.
fn symtab_image() -> Vec<u8> {
    let symoff = 91;
    let stroff = symoff + 147 * 24;
    let shoff = stroff + 1;
    let len = shoff + 4 * 64;
    let mut b = base_image(len, 0, 0, shoff as u64, 4, 1);
    set_name_pool(&mut b);
    set_sect(&mut b, shoff + 64, 1, 3, 64, 27, 0);
    set_sect(&mut b, shoff + 128, 11, 2, symoff as u64, 147 * 24, 24);
    set_sect(&mut b, shoff + 192, 19, 3, stroff as u64, 1, 0);
    b
}

#[test]
fn elf_loading() {
    let image = symtab_image();
    let parsed_elf = if let ElfParse::Elf64(elf64) = with(image.as_slice()).unwrap() {
        elf64
    } else {
        unreachable!();
    };
    assert_eq!(parsed_elf.symtab.unwrap().len(), 147);
}

#[test]
fn minimal_elf64() {
    let b = base_image(64, 0, 0, 0, 0, 0);
    let parsed = parse(b.as_slice()).unwrap();
    let f = if let ElfParse::Elf64(f) = parsed { f } else { unreachable!() };
    assert_eq!(f.phs.len(), 0);
    assert!(f.shs.is_none());
    assert!(f.sh_names.is_none());
    assert!(f.symtab.is_none());
    assert!(f.sym_names.is_none());
    assert_eq!(f.eh.tail.e_ehsize, 64);
}

#[test]
fn corrupted_magic() {
    let mut b = base_image(64, 0, 0, 0, 0, 0);
    b[0] = 0x00;
    assert_eq!(parse(b.as_slice()).unwrap_err(), ParseFault::BadMagic);
    assert!(ParseFault::BadMagic.message().contains("ei_mag"));
    assert_eq!(with(b.as_slice()).unwrap_err(), Error::Elf);
}

#[test]
fn declared_ehsize() {
    let mut b = base_image(64, 0, 0, 0, 0, 0);
    set_u16(&mut b, 52, 63);
    assert_eq!(parse(b.as_slice()).unwrap_err(), ParseFault::BadEhsize);
    assert!(ParseFault::BadEhsize.message().contains("e_ehsize"));
    assert_eq!(with(b.as_slice()).unwrap_err(), Error::Elf);
}

#[test]
fn shstrndx_out_of_range() {
    let shoff = 91;
    let len = shoff + 64;
    let mut b = base_image(len, 0, 0, shoff as u64, 1, 5);
    set_sect(&mut b, shoff, 0, 3, 64, 27, 0);
    assert_eq!(parse(b.as_slice()).unwrap_err(), ParseFault::ShstrndxRange);
    assert_eq!(with(b.as_slice()).unwrap_err(), Error::Elf);
}

#[test]
fn strpool_missing_trailing_nul() {
    let shoff = 91;
    let len = shoff + 64;
    let mut b = base_image(len, 0, 0, shoff as u64, 1, 0);
    set_name_pool(&mut b);
    // A pool of nonzero size whose last byte is not NUL.
    b[64 + 26] = 0x41;
    set_sect(&mut b, shoff, 0, 3, 64, 27, 0);
    assert_eq!(parse(b.as_slice()).unwrap_err(), ParseFault::StrtabFrame);
    assert!(ParseFault::StrtabFrame.message().contains("malformed"));
    assert_eq!(with(b.as_slice()).unwrap_err(), Error::Elf);
}

#[test]
fn class_rejected() {
    let mut b = base_image(64, 0, 0, 0, 0, 0);
    b[4] = 1;
    assert_eq!(parse(b.as_slice()).unwrap_err(), ParseFault::Class32);
    assert_eq!(with(b.as_slice()).unwrap_err(), Error::Elf);
    b[4] = 7;
    assert_eq!(parse(b.as_slice()).unwrap_err(), ParseFault::BadClass);
    assert_eq!(with(b.as_slice()).unwrap_err(), Error::Elf);
}

#[test]
fn data_rejected() {
    let mut b = base_image(64, 0, 0, 0, 0, 0);
    b[5] = 2;
    assert_eq!(parse(b.as_slice()).unwrap_err(), ParseFault::BigEndian);
    assert_eq!(with(b.as_slice()).unwrap_err(), Error::Elf);
    b[5] = 0;
    assert_eq!(parse(b.as_slice()).unwrap_err(), ParseFault::BadData);
}

#[test]
fn machine_rejected() {
    let mut b = base_image(64, 0, 0, 0, 0, 0);
    set_u16(&mut b, 18, 0x03);
    assert_eq!(parse(b.as_slice()).unwrap_err(), ParseFault::BadMachine);
    assert_eq!(with(b.as_slice()).unwrap_err(), Error::Elf);
    set_u16(&mut b, 18, 0x1234);
    assert_eq!(parse(b.as_slice()).unwrap_err(), ParseFault::BadMachine);
}

#[test]
fn version_and_padding_rejected() {
    let mut b = base_image(64, 0, 0, 0, 0, 0);
    b[6] = 2;
    assert_eq!(parse(b.as_slice()).unwrap_err(), ParseFault::BadIdentVersion);
    let mut b = base_image(64, 0, 0, 0, 0, 0);
    b[12] = 1;
    assert_eq!(parse(b.as_slice()).unwrap_err(), ParseFault::BadPad);
    let mut b = base_image(64, 0, 0, 0, 0, 0);
    set_u32(&mut b, 20, 2);
    assert_eq!(parse(b.as_slice()).unwrap_err(), ParseFault::BadVersion);
}

#[test]
fn entry_sizes_rejected() {
    let mut b = base_image(120, 64, 1, 0, 0, 0);
    set_u16(&mut b, 54, 32);
    assert_eq!(parse(b.as_slice()).unwrap_err(), ParseFault::BadPhentsize);
    let shoff = 91;
    let mut b = base_image(shoff + 64, 0, 0, shoff as u64, 1, 0);
    set_u16(&mut b, 58, 40);
    assert_eq!(parse(b.as_slice()).unwrap_err(), ParseFault::BadShentsize);
}

#[test]
fn short_buffer_is_transmute() {
    let b = base_image(64, 0, 0, 0, 0, 0);
    assert_eq!(parse(&b.as_slice()[0..40]).unwrap_err(), ParseFault::Transmute);
    assert_eq!(with(&b.as_slice()[0..40]).unwrap_err(), Error::Transmute);
    assert_eq!(parse(&b.as_slice()[0..10]).unwrap_err(), ParseFault::Transmute);
    // A program-header table pointing past the end of the file.
    let b = base_image(64, 64, 1, 0, 0, 0);
    assert_eq!(parse(b.as_slice()).unwrap_err(), ParseFault::Transmute);
}

#[test]
fn symtab_entsize_invalid() {
    let mut b = symtab_image();
    let shoff = 91 + 147 * 24 + 1;
    // Break the declared symbol entry size of the ".symtab" section.
    set_u64(&mut b, shoff + 128 + 56, 16);
    assert_eq!(parse(b.as_slice()).unwrap_err(), ParseFault::BadSymEntsize);
    assert!(ParseFault::BadSymEntsize.message().contains("symtab"));
}

#[test]
fn section_name_offset_invalid() {
    let mut b = symtab_image();
    let shoff = 91 + 147 * 24 + 1;
    // Point the ".symtab" section's name outside the name pool.
    set_u32(&mut b, shoff + 128, 1000);
    assert_eq!(parse(b.as_slice()).unwrap_err(), ParseFault::BadStrOffset);
    assert_eq!(with(b.as_slice()).unwrap_err(), Error::Elf);
}

#[test]
fn name_pool_type_checked() {
    let shoff = 91;
    let mut b = base_image(shoff + 64, 0, 0, shoff as u64, 1, 0);
    set_name_pool(&mut b);
    // The named section is not a string table.
    set_sect(&mut b, shoff, 0, 1, 64, 27, 0);
    assert_eq!(parse(b.as_slice()).unwrap_err(), ParseFault::NotStrtab);
    // The named section has an unrecognised type.
    set_u32(&mut b, shoff + 4, 0x0C);
    assert_eq!(parse(b.as_slice()).unwrap_err(), ParseFault::UnknownShType);
    // The named section reaches past the end of the file.
    set_u32(&mut b, shoff + 4, 3);
    set_u64(&mut b, shoff + 32, 1_000_000);
    assert_eq!(parse(b.as_slice()).unwrap_err(), ParseFault::StrtabBounds);
}

#[test]
fn program_headers_parsed() {
    let mut b = base_image(120, 64, 1, 0, 0, 0);
    set_u32(&mut b, 64, 1); // p_type: loadable
    set_u32(&mut b, 68, 5); // p_flag
    set_u64(&mut b, 72, 0x1000); // p_offset
    set_u64(&mut b, 80, 0x400000); // p_vaddr
    set_u64(&mut b, 96, 0x200); // p_filesz
    set_u64(&mut b, 104, 0x300); // p_memsz
    set_u64(&mut b, 112, 0x1000); // p_align
    let f = if let ElfParse::Elf64(f) = parse(b.as_slice()).unwrap() { f } else { unreachable!() };
    assert_eq!(f.phs.len(), 1);
    let ph = &f.phs[0];
    assert_eq!(ph.p_type(), Ok(PType::Load));
    assert_eq!(ph.offset(), 0x1000);
    assert_eq!(ph.vaddr(), 0x400000);
    assert_eq!(ph.filesz(), 0x200);
    assert_eq!(ph.memsz(), 0x300);
    assert_eq!(ph.align(), 0x1000);
}

/// An image whose ".strtab" holds "\0main\0" and whose second symbol is a
/// global function named "main".
fn named_symbol_image() -> Vec<u8> {
    let symoff = 91;
    let stroff = symoff + 2 * 24;
    let shoff = stroff + 6;
    let len = shoff + 4 * 64;
    let mut b = base_image(len, 0, 0, shoff as u64, 4, 1);
    set_name_pool(&mut b);
    set_sect(&mut b, shoff + 64, 1, 3, 64, 27, 0);
    set_sect(&mut b, shoff + 128, 11, 2, symoff as u64, 2 * 24, 24);
    set_sect(&mut b, shoff + 192, 19, 3, stroff as u64, 6, 0);
    set_u32(&mut b, symoff + 24, 1); // st_name of the second symbol
    b[symoff + 24 + 4] = 0x12; // st_info: global function
    let name = b"\0main\0";
    for (i, &c) in name.iter().enumerate() {
        b[stroff + i] = c;
    }
    b
}

#[test]
fn symbol_accessors() {
    let b = named_symbol_image();
    let f = if let ElfParse::Elf64(f) = parse(b.as_slice()).unwrap() { f } else { unreachable!() };
    let syms = f.symtab.unwrap();
    let names = f.sym_names.unwrap();
    assert_eq!(syms.len(), 2);
    assert_eq!(syms[1].name(&names).unwrap(), b"main");
    assert_eq!(syms[1].binding(), Ok(StBind::Global));
    assert_eq!(syms[1].st_type(), Ok(StType::Func));
    // The null symbol carries the empty name and local binding.
    assert_eq!(syms[0].name(&names).unwrap(), b"\0");
    assert_eq!(syms[0].binding(), Ok(StBind::Local));
    assert_eq!(syms[0].st_type(), Ok(StType::NoType));
}

#[test]
fn section_names_resolved() {
    let b = symtab_image();
    let f = if let ElfParse::Elf64(f) = parse(b.as_slice()).unwrap() { f } else { unreachable!() };
    let shs = f.shs.unwrap();
    let names = f.sh_names.unwrap();
    assert_eq!(shs.len(), 4);
    assert_eq!(shs[1].name(&names).unwrap(), b".shstrtab");
    assert_eq!(shs[2].name(&names).unwrap(), b".symtab");
    assert_eq!(shs[3].name(&names).unwrap(), b".strtab");
    assert_eq!(shs[2].entsize(), 24);
    assert_eq!(shs[2].size(), 147 * 24);
}
