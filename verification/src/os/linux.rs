//! The Linux x86-64 syscall convention: call numbers, flag values, the
//! stat record, and the decoding of raw return values, where an error is
//! a negative return carrying `-errno`.

use crate::error::Error;
use crate::os::Fd;
use vstd::prelude::*;

verus! {

pub const SYS_READ: u32 = 0;

pub const SYS_WRITE: u32 = 1;

pub const SYS_OPEN: u32 = 2;

pub const SYS_CLOSE: u32 = 3;

pub const SYS_FSTAT: u32 = 5;

pub const SYS_MMAP: u32 = 9;

pub const SYS_EXIT: u32 = 60;

pub const RD_ONLY: i32 = 0x000;

pub const WR_ONLY: i32 = 0x001;

pub const RD_WR: i32 = 0x002;

pub const CREAT: i32 = 0x100;

pub const APPEND: i32 = 0x2000;

pub const PROT_NONE: u32 = 0x00;

pub const PROT_READ: u32 = 0x01;

pub const PROT_WRITE: u32 = 0x02;

pub const PROT_EXEC: u32 = 0x04;

pub const MAP_SHARED: u32 = 0x0001;

pub const MAP_PRIVATE: u32 = 0x0002;

pub const MAP_FIXED: u32 = 0x0010;

pub const MAP_ANON: u32 = 0x0020;

/// The record the Linux `fstat` call fills; only the size matters here.
#[derive(Debug, Clone, PartialEq, Eq, Structural)]
pub struct Stat {
    pub dev: u64,
    pub ino: u64,
    pub mode: u32,
    pub nlink: u64,
    pub uid: u32,
    pub gid: u32,
    pub rdev: u64,
    pub size: i64,
    pub blksize: i64,
    pub blocks: i64,
    pub atime: u64,
    pub mtime: u64,
    pub ctime: u64,
}

impl Default for Stat {
    /// The all-zero record, as handed to the kernel to fill.
    fn default() -> (r: Stat)
        ensures
            r.size == 0,
    {
        Stat {
            dev: 0,
            ino: 0,
            mode: 0,
            nlink: 0,
            uid: 0,
            gid: 0,
            rdev: 0,
            size: 0,
            blksize: 0,
            blocks: 0,
            atime: 0,
            mtime: 0,
            ctime: 0,
        }
    }
}

/// Decodes the raw return of the Linux `write` call: a negative return
/// carries the errno, anything else is the number of bytes written.
pub fn write_result(ret: isize) -> (r: Result<usize, Error>)
    ensures
        ret >= 0 ==> r == Ok::<usize, Error>(ret as usize),
        ret < 0 ==> r == Err::<usize, Error>(Error::Write(ret as i32)),
{
    if ret >= 0 {
        Ok(ret as usize)
    } else {
        Err(Error::Write(#[verifier::truncate] (ret as i32)))
    }
}

/// Decodes the raw return of the Linux `read` call.
pub fn read_result(ret: isize) -> (r: Result<usize, Error>)
    ensures
        ret >= 0 ==> r == Ok::<usize, Error>(ret as usize),
        ret < 0 ==> r == Err::<usize, Error>(Error::Read(ret as i32)),
{
    if ret >= 0 {
        Ok(ret as usize)
    } else {
        Err(Error::Read(#[verifier::truncate] (ret as i32)))
    }
}

/// Decodes the raw return of the Linux `open` call: a negative return
/// carries the errno, anything else is the new descriptor.
pub fn open_result(ret: isize) -> (r: Result<Fd, Error>)
    ensures
        ret >= 0 ==> r == Ok::<Fd, Error>(Fd(ret as u32)),
        ret < 0 ==> r == Err::<Fd, Error>(Error::Open(ret as i32)),
{
    if ret >= 0 {
        Ok(Fd(#[verifier::truncate] (ret as u32)))
    } else {
        Err(Error::Open(#[verifier::truncate] (ret as i32)))
    }
}

/// Decodes the raw return of the Linux `fstat` call, handing the filled
/// record through on success.
pub fn fstat_result(ret: isize, stat: Stat) -> (r: Result<Stat, Error>)
    ensures
        ret >= 0 ==> r == Ok::<Stat, Error>(stat),
        ret < 0 ==> r == Err::<Stat, Error>(Error::Fstat(ret as i32)),
{
    if ret >= 0 {
        Ok(stat)
    } else {
        Err(Error::Fstat(#[verifier::truncate] (ret as i32)))
    }
}

/// Decodes the raw return of the Linux `mmap` call: a negative return
/// carries the errno, anything else is the mapped address.
pub fn mmap_result(ret: isize) -> (r: Result<usize, Error>)
    ensures
        ret >= 0 ==> r == Ok::<usize, Error>(ret as usize),
        ret < 0 ==> r == Err::<usize, Error>(Error::Mmap(ret as i32)),
{
    if ret >= 0 {
        Ok(ret as usize)
    } else {
        Err(Error::Mmap(#[verifier::truncate] (ret as i32)))
    }
}

} // verus!
