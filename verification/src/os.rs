//! The loader's view of the host: file descriptors, mapped files, the
//! command line, and the byte primitives a freestanding runtime owes the
//! compiler.  The kernel-specific syscall conventions live in the
//! per-platform submodules.

use vstd::prelude::*;
use vstd::slice::slice_index_get;

pub mod linux;
pub mod macos;

verus! {

/// A file descriptor as the kernel numbers them.
#[derive(Copy, Clone, Debug, PartialEq, Eq, Structural)]
pub struct Fd(pub u32);

/// The descriptor of standard error.
pub fn stderr() -> (r: Fd)
    ensures
        r.0 == 2,
{
    Fd(2)
}

/// A file mapped into memory, writable or read-only.  The buffer lives
/// for the whole process: the kernel established the mapping and nothing
/// here releases it.
#[derive(Debug)]
pub enum MappedFile {
    ReadWrite(&'static [u8]),
    ReadOnly(&'static [u8]),
}

impl View for MappedFile {
    type V = Seq<u8>;

    open spec fn view(&self) -> Seq<u8> {
        match self {
            MappedFile::ReadWrite(m) => m@,
            MappedFile::ReadOnly(m) => m@,
        }
    }
}

impl MappedFile {
    /// The mapped bytes.
    pub fn as_slice(&self) -> (r: &[u8])
        ensures
            r@ == self@,
    {
        match self {
            MappedFile::ReadOnly(m) => m,
            MappedFile::ReadWrite(m) => m,
        }
    }
}

/// The command line: one NUL-trimmed byte string per argument.
pub struct Args(pub Vec<Vec<u8>>);

impl View for Args {
    type V = Seq<Seq<u8>>;

    open spec fn view(&self) -> Seq<Seq<u8>> {
        self.0.deep_view()
    }
}

impl Args {
    /// How many arguments the kernel handed over, the program name
    /// included.
    pub fn len(&self) -> (r: usize)
        ensures
            r == self@.len(),
    {
        self.0.len()
    }

    /// The `n`-th argument.
    pub fn nth(&self, n: usize) -> (r: &Vec<u8>)
        requires
            n < self@.len(),
        ensures
            r@ == self@[n as int],
    {
        &self.0[n]
    }
}

/// Whether `path` may be handed to the open syscall: the kernel reads up
/// to a NUL byte, so the path must end in one.  Handing over a path
/// without one is a programming error.
pub fn path_nul_terminated(path: &[u8]) -> (r: bool)
    ensures
        r <==> path@.len() > 0 && path@[path@.len() - 1] == 0,
{
    let n = path.len();
    n > 0 && *slice_index_get(path, n - 1) == 0
}

/// The three-way comparison of the first `n` bytes of `a` and `b` from
/// index `i` on: 0 when they agree, else the difference at the first
/// disagreement.
pub open spec fn spec_memcmp(a: Seq<u8>, b: Seq<u8>, i: int, n: int) -> int
    decreases n - i,
    when 0 <= i <= n <= a.len() && n <= b.len()
{
    if i >= n {
        0
    } else if a[i] != b[i] {
        a[i] - b[i]
    } else {
        spec_memcmp(a, b, i + 1, n)
    }
}

/// Fills the first `n` bytes of `s` with the low byte of `c`, leaving the
/// rest unchanged.
pub fn memset(s: &mut Vec<u8>, c: i32, n: usize)
    requires
        n <= old(s)@.len(),
    ensures
        final(s)@.len() == old(s)@.len(),
        forall|i: int| 0 <= i < n ==> final(s)@[i] == c as u8,
        forall|i: int| n <= i < old(s)@.len() ==> final(s)@[i] == old(s)@[i],
{
    let b: u8 = #[verifier::truncate] (c as u8);
    let mut i: usize = 0;
    while i < n
        invariant
            0 <= i <= n <= s@.len(),
            s@.len() == old(s)@.len(),
            b == c as u8,
            forall|k: int| 0 <= k < i ==> s@[k] == b,
            forall|k: int| n <= k < old(s)@.len() ==> s@[k] == old(s)@[k],
            forall|k: int| i <= k < n ==> s@[k] == old(s)@[k],
        decreases n - i,
    {
        s.set(i, b);
        i = i + 1;
    }
}

/// Copies the first `count` bytes of `src` over the head of `dst`,
/// leaving the rest of `dst` unchanged.
pub fn memcpy(dst: &mut Vec<u8>, src: &[u8], count: usize)
    requires
        count <= old(dst)@.len(),
        count <= src@.len(),
    ensures
        final(dst)@.len() == old(dst)@.len(),
        forall|i: int| 0 <= i < count ==> final(dst)@[i] == src@[i],
        forall|i: int| count <= i < old(dst)@.len() ==> final(dst)@[i] == old(dst)@[i],
{
    let mut i: usize = 0;
    while i < count
        invariant
            0 <= i <= count <= dst@.len(),
            dst@.len() == old(dst)@.len(),
            count <= src@.len(),
            forall|k: int| 0 <= k < i ==> dst@[k] == src@[k],
            forall|k: int| count <= k < old(dst)@.len() ==> dst@[k] == old(dst)@[k],
        decreases count - i,
    {
        dst.set(i, *slice_index_get(src, i));
        i = i + 1;
    }
}

/// Compares the first `count` bytes of `s1` and `s2`: 0 when they agree,
/// else the difference at the first disagreement.
pub fn memcmp(s1: &[u8], s2: &[u8], count: usize) -> (r: i32)
    requires
        count <= s1@.len(),
        count <= s2@.len(),
    ensures
        r == spec_memcmp(s1@, s2@, 0, count as int),
{
    let mut i: usize = 0;
    while i < count
        invariant
            0 <= i <= count,
            count <= s1@.len() && count <= s2@.len(),
            spec_memcmp(s1@, s2@, 0, count as int) == spec_memcmp(
                s1@,
                s2@,
                i as int,
                count as int,
            ),
        decreases count - i,
    {
        let v1 = *slice_index_get(s1, i) as i32;
        let v2 = *slice_index_get(s2, i) as i32;
        let diff = v1 - v2;
        if diff != 0 {
            return diff;
        }
        i = i + 1;
    }
    0
}

} // verus!
