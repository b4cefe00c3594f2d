//! The error taxonomy, the exit-status encoding, the per-kernel syscall
//! result conventions, and the byte primitives.

use quack::error::{Error, ParseFault};
use quack::os::{linux, macos, memcmp, memcpy, memset, stderr, Args, Fd, MappedFile};

#[test]
fn to_ret_encodes_kind_and_errno() {
    assert_eq!(Error::Open(5).to_ret(), 0x05);
    assert_eq!(Error::Write(-1).to_ret(), 0x1F);
    assert_eq!(Error::Read(20).to_ret(), 0x24);
    assert_eq!(Error::Fstat(0).to_ret(), 0x30);
    assert_eq!(Error::Fmt.to_ret(), 0x40);
    assert_eq!(Error::Elf.to_ret(), 0x50);
    assert_eq!(Error::Cli.to_ret(), 0x60);
    assert_eq!(Error::Utf8Error.to_ret(), 0x70);
    assert_eq!(Error::Transmute.to_ret(), 0x80);
    assert_eq!(Error::Mmap(-20).to_ret(), 0x9C);
}

#[test]
fn fault_taxonomy() {
    assert_eq!(ParseFault::Transmute.to_error(), Error::Transmute);
    assert_eq!(ParseFault::BadMagic.to_error(), Error::Elf);
    assert_eq!(ParseFault::StrtabFrame.to_error(), Error::Elf);
    assert!(ParseFault::ShstrndxRange.message().contains("e_shstrndx"));
    assert!(ParseFault::BadStrOffset.message().contains("invalid offset"));
}

#[test]
fn linux_error_convention() {
    // Linux reports failure through a negative return carrying -errno.
    assert_eq!(linux::write_result(7), Ok(7));
    assert_eq!(linux::write_result(-9), Err(Error::Write(-9)));
    assert_eq!(linux::read_result(0), Ok(0));
    assert_eq!(linux::read_result(-11), Err(Error::Read(-11)));
    assert_eq!(linux::open_result(3), Ok(Fd(3)));
    assert_eq!(linux::open_result(-2), Err(Error::Open(-2)));
    let stat = linux::Stat { size: 42, ..Default::default() };
    assert_eq!(linux::fstat_result(0, stat.clone()).unwrap().size, 42);
    assert_eq!(linux::fstat_result(-9, stat), Err(Error::Fstat(-9)));
    assert_eq!(linux::mmap_result(0x7000), Ok(0x7000));
    assert_eq!(linux::mmap_result(-12), Err(Error::Mmap(-12)));
}

#[test]
fn macos_error_convention() {
    // macOS reports failure through the carry flag and a positive errno.
    let carry = macos::AX_CARRY_BIT;
    assert!(macos::carry_set(carry));
    assert!(!macos::carry_set(0));
    assert_eq!(macos::write_result(7, 0), Ok(7));
    assert_eq!(macos::write_result(9, carry), Err(Error::Write(9)));
    assert_eq!(macos::read_result(5, 0), Ok(5));
    assert_eq!(macos::read_result(11, carry), Err(Error::Read(11)));
    assert_eq!(macos::open_result(4, 0), Ok(Fd(4)));
    assert_eq!(macos::open_result(2, carry), Err(Error::Open(2)));
    let stat = macos::Stat64 {
        dev: 0,
        mode: 0,
        nlink: 0,
        ino: 0,
        uid: 0,
        gid: 0,
        rdev: 0,
        padding: 0,
        atimespec: macos::TimeSpec { sec: 0, nsec: 0 },
        mtimespec: macos::TimeSpec { sec: 0, nsec: 0 },
        ctimespec: macos::TimeSpec { sec: 0, nsec: 0 },
        birthtimespec: macos::TimeSpec { sec: 0, nsec: 0 },
        size: 99,
        blocks: 0,
        blksize: 0,
        flags: 0,
        gen: 0,
        lspare: 0,
        qspare: [0, 0],
    };
    assert_eq!(macos::fstat_result(0, 0, stat.clone()).unwrap().size, 99);
    assert_eq!(macos::fstat_result(9, carry, stat), Err(Error::Fstat(9)));
    assert_eq!(macos::mmap_result(0x8000, 0), Ok(0x8000));
    assert_eq!(macos::mmap_result(12, carry), Err(Error::Mmap(12)));
}

#[test]
fn open_mode_values() {
    assert_eq!(linux::RD_ONLY, 0x000);
    assert_eq!(linux::CREAT | linux::WR_ONLY | linux::APPEND, 0x2101);
    assert_eq!(macos::CREAT | macos::WR_ONLY | macos::APPEND, 0x0209);
    assert_eq!(linux::PROT_READ | linux::PROT_WRITE, 0x03);
    assert_eq!(linux::MAP_PRIVATE, 0x0002);
    assert_eq!(macos::MAP_ANON, 0x1000);
}

#[test]
fn byte_primitives() {
    let mut v = vec![1u8, 2, 3, 4, 5];
    memset(&mut v, 0x41, 3);
    assert_eq!(v, vec![0x41, 0x41, 0x41, 4, 5]);
    memset(&mut v, 0x100 + 7, 1);
    assert_eq!(v[0], 7);

    let src = [9u8, 8, 7];
    memcpy(&mut v, &src, 2);
    assert_eq!(v, vec![9, 8, 0x41, 4, 5]);

    assert_eq!(memcmp(&[1, 2, 3], &[1, 2, 3], 3), 0);
    assert_eq!(memcmp(&[1, 2, 3], &[1, 2, 4], 3), -1);
    assert_eq!(memcmp(&[1, 9, 3], &[1, 2, 4], 3), 7);
    assert_eq!(memcmp(&[1, 9, 3], &[1, 2, 4], 1), 0);
}

#[test]
fn args_and_descriptors() {
    let args = Args(vec![b"quack".to_vec(), b"a.out".to_vec()]);
    assert_eq!(args.len(), 2);
    assert_eq!(args.nth(0).as_slice(), b"quack");
    assert_eq!(args.nth(1).as_slice(), b"a.out");
    assert_eq!(stderr(), Fd(2));
    let buf: &'static [u8] = Box::leak(vec![1u8, 2, 3].into_boxed_slice());
    let mapped = MappedFile::ReadOnly(buf);
    assert_eq!(mapped.as_slice(), &[1, 2, 3]);
    let mapped = MappedFile::ReadWrite(buf);
    assert_eq!(mapped.as_slice().len(), 3);
}
