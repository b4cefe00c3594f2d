//! The string pool: construction checks and bounded lookup by offset.

use quack::elf::parse::ffi_types::{SectHead64, SectNonArchDep, ShTypeUnchecked};
use quack::elf::parse::Strings;
use quack::error::{Error, ParseFault};

fn strtab_section(ty: u32, offset: u64, size: u64) -> SectHead64 {
    SectHead64 {
        head: SectNonArchDep { sh_name: 0, sh_type: ShTypeUnchecked { raw: ty } },
        sh_flags: 0,
        sh_addr: 0,
        sh_offset: offset,
        sh_size: size,
        sh_link: 0,
        sh_info: 0,
        sh_addralign: 0,
        sh_entsize: 0,
    }
}

#[test]
fn lookup_by_offset() {
    let buf = b"\0abc\0de\0";
    let pool = Strings::from(buf, &strtab_section(3, 0, 8)).unwrap();
    // Offset 0 is the conventional empty name: the single leading NUL.
    assert_eq!(pool.get_string(0).unwrap(), b"\0");
    assert_eq!(pool.get_string(1).unwrap(), b"abc");
    // A lookup may start inside a name.
    assert_eq!(pool.get_string(2).unwrap(), b"bc");
    assert_eq!(pool.get_string(5).unwrap(), b"de");
    // The NUL terminator itself names the empty string.
    assert_eq!(pool.get_string(4).unwrap(), b"");
    // Offsets outside the pool fail.
    assert_eq!(pool.get_string(8), Err(Error::Elf));
    assert_eq!(pool.get_string(1000), Err(Error::Elf));
}

#[test]
fn lookup_result_has_no_nul() {
    let buf = b"\0first\0second\0";
    let pool = Strings::from(buf, &strtab_section(3, 0, buf.len() as u64)).unwrap();
    for off in 1..buf.len() {
        let s = pool.get_string(off).unwrap();
        assert!(s.iter().all(|&c| c != 0));
    }
}

#[test]
fn empty_pool() {
    let pool = Strings::from(b"", &strtab_section(3, 0, 0)).unwrap();
    // An empty pool has no valid offsets, not even 0.
    assert_eq!(pool.get_string(0), Err(Error::Elf));
}

#[test]
fn construction_checks() {
    let buf = b"\0abc\0de\0";
    // Not a string-table section.
    assert_eq!(Strings::from(buf, &strtab_section(2, 0, 8)).unwrap_err(), ParseFault::NotStrtab);
    // An unrecognised section type.
    assert_eq!(
        Strings::from(buf, &strtab_section(0x0C, 0, 8)).unwrap_err(),
        ParseFault::UnknownShType
    );
    // The described extent leaves the buffer.
    assert_eq!(Strings::from(buf, &strtab_section(3, 4, 8)).unwrap_err(), ParseFault::StrtabBounds);
    assert_eq!(
        Strings::from(buf, &strtab_section(3, 0, 9)).unwrap_err(),
        ParseFault::StrtabBounds
    );
    // A nonempty pool must start and end with NUL.
    assert_eq!(
        Strings::from(b"x\0", &strtab_section(3, 0, 2)).unwrap_err(),
        ParseFault::StrtabFrame
    );
    assert_eq!(
        Strings::from(b"\0x", &strtab_section(3, 0, 2)).unwrap_err(),
        ParseFault::StrtabFrame
    );
    // A pool of a single NUL byte is the smallest nonempty pool.
    let pool = Strings::from(b"\0", &strtab_section(3, 0, 1)).unwrap();
    assert_eq!(pool.get_string(0).unwrap(), b"\0");
}
