//! The macOS x86-64 syscall convention: call numbers, flag values, the
//! stat record, and the decoding of raw return values, where the kernel
//! reports failure through the carry flag and returns the positive errno.

use crate::error::Error;
use crate::os::Fd;
use vstd::prelude::*;

verus! {

pub const SYS_EXIT: u32 = 0x02000001;

pub const SYS_READ: u32 = 0x02000003;

pub const SYS_WRITE: u32 = 0x02000004;

pub const SYS_OPEN: u32 = 0x02000005;

pub const SYS_MMAP: u32 = 0x020000C5;

pub const SYS_FSTAT64: u32 = 0x02000153;

/// The carry bit as `lahf` leaves it in the flags byte.
pub const AX_CARRY_BIT: u16 = 0x0100;

pub const RD_ONLY: i32 = 0x0000;

pub const WR_ONLY: i32 = 0x0001;

pub const RD_WR: i32 = 0x0002;

pub const CREAT: i32 = 0x0200;

pub const APPEND: i32 = 0x0008;

pub const PROT_NONE: u32 = 0x00;

pub const PROT_READ: u32 = 0x01;

pub const PROT_WRITE: u32 = 0x02;

pub const PROT_EXEC: u32 = 0x04;

pub const MAP_SHARED: u32 = 0x0001;

pub const MAP_PRIVATE: u32 = 0x0002;

pub const MAP_FIXED: u32 = 0x0010;

pub const MAP_ANON: u32 = 0x1000;

/// Whether a flags word captured after a syscall has the carry bit set,
/// which is how this kernel signals failure.
pub fn carry_set(err_flags: u16) -> (r: bool)
    ensures
        r <==> err_flags & AX_CARRY_BIT != 0,
{
    err_flags & AX_CARRY_BIT != 0
}

/// A timestamp of the macOS stat record.
#[derive(Debug, Clone, PartialEq, Eq, Structural)]
pub struct TimeSpec {
    pub sec: u64,
    pub nsec: u64,
}

/// The record the macOS `fstat64` call fills; only the size matters here.
#[derive(Debug, Clone, PartialEq)]
pub struct Stat64 {
    pub dev: i32,
    pub mode: u16,
    pub nlink: u16,
    pub ino: u64,
    pub uid: u32,
    pub gid: u32,
    pub rdev: i32,
    pub padding: i32,
    pub atimespec: TimeSpec,
    pub mtimespec: TimeSpec,
    pub ctimespec: TimeSpec,
    pub birthtimespec: TimeSpec,
    pub size: i64,
    pub blocks: i64,
    pub blksize: i32,
    pub flags: u32,
    pub gen: u32,
    pub lspare: i32,
    pub qspare: [u64; 2],
}

/// Decodes the raw return of the macOS `write` call: a set carry flag
/// means the return value is the errno, otherwise it is the number of
/// bytes written.
pub fn write_result(ret: isize, err_flags: u16) -> (r: Result<usize, Error>)
    ensures
        err_flags & AX_CARRY_BIT == 0 ==> r == Ok::<usize, Error>(ret as usize),
        err_flags & AX_CARRY_BIT != 0 ==> r == Err::<usize, Error>(Error::Write(ret as i32)),
{
    if err_flags & AX_CARRY_BIT == 0 {
        Ok(#[verifier::truncate] (ret as usize))
    } else {
        Err(Error::Write(#[verifier::truncate] (ret as i32)))
    }
}

/// Decodes the raw return of the macOS `read` call.
pub fn read_result(ret: isize, err_flags: u16) -> (r: Result<usize, Error>)
    ensures
        err_flags & AX_CARRY_BIT == 0 ==> r == Ok::<usize, Error>(ret as usize),
        err_flags & AX_CARRY_BIT != 0 ==> r == Err::<usize, Error>(Error::Read(ret as i32)),
{
    if err_flags & AX_CARRY_BIT == 0 {
        Ok(#[verifier::truncate] (ret as usize))
    } else {
        Err(Error::Read(#[verifier::truncate] (ret as i32)))
    }
}

/// Decodes the raw return of the macOS `open` call: a clear carry flag
/// means the return value is the new descriptor.
pub fn open_result(ret: isize, err_flags: u16) -> (r: Result<Fd, Error>)
    ensures
        err_flags & AX_CARRY_BIT == 0 ==> r == Ok::<Fd, Error>(Fd(ret as u32)),
        err_flags & AX_CARRY_BIT != 0 ==> r == Err::<Fd, Error>(Error::Open(ret as i32)),
{
    if err_flags & AX_CARRY_BIT == 0 {
        Ok(Fd(#[verifier::truncate] (ret as u32)))
    } else {
        Err(Error::Open(#[verifier::truncate] (ret as i32)))
    }
}

/// Decodes the raw return of the macOS `fstat64` call, handing the filled
/// record through on success.
pub fn fstat_result(ret: isize, err_flags: u16, stat: Stat64) -> (r: Result<Stat64, Error>)
    ensures
        err_flags & AX_CARRY_BIT == 0 ==> r == Ok::<Stat64, Error>(stat),
        err_flags & AX_CARRY_BIT != 0 ==> r == Err::<Stat64, Error>(Error::Fstat(ret as i32)),
{
    if err_flags & AX_CARRY_BIT == 0 {
        Ok(stat)
    } else {
        Err(Error::Fstat(#[verifier::truncate] (ret as i32)))
    }
}

/// Decodes the raw return of the macOS `mmap` call: a clear carry flag
/// means the return value is the mapped address.
pub fn mmap_result(ret: isize, err_flags: u16) -> (r: Result<usize, Error>)
    ensures
        err_flags & AX_CARRY_BIT == 0 ==> r == Ok::<usize, Error>(ret as usize),
        err_flags & AX_CARRY_BIT != 0 ==> r == Err::<usize, Error>(Error::Mmap(ret as i32)),
{
    if err_flags & AX_CARRY_BIT == 0 {
        Ok(#[verifier::truncate] (ret as usize))
    } else {
        Err(Error::Mmap(#[verifier::truncate] (ret as i32)))
    }
}

} // verus!
