//! Reinterpretation of raw bytes as fixed-layout records, and the decoder
//! interface for enumerated fields that must keep their raw value.

use crate::error::Error;
use vstd::arithmetic::div_mod::lemma_fundamental_div_mod;
use vstd::arithmetic::mul::{lemma_mul_inequality, lemma_mul_is_distributive_add_other_way};
use vstd::bytes::{
    spec_u16_from_le_bytes, spec_u32_from_le_bytes, spec_u64_from_le_bytes, u16_from_le_bytes,
    u32_from_le_bytes, u64_from_le_bytes,
};
use vstd::prelude::*;
use vstd::slice::{slice_index_get, slice_subrange};

verus! {

/// The 16-bit little-endian integer stored at `off` in `s`.
pub open spec fn spec_u16_at(s: Seq<u8>, off: int) -> u16 {
    spec_u16_from_le_bytes(s.subrange(off, off + 2))
}

/// The 32-bit little-endian integer stored at `off` in `s`.
pub open spec fn spec_u32_at(s: Seq<u8>, off: int) -> u32 {
    spec_u32_from_le_bytes(s.subrange(off, off + 4))
}

/// The 64-bit little-endian integer stored at `off` in `s`.
pub open spec fn spec_u64_at(s: Seq<u8>, off: int) -> u64 {
    spec_u64_from_le_bytes(s.subrange(off, off + 8))
}

pub fn read_u8(buf: &[u8], off: usize) -> (x: u8)
    requires
        off < buf@.len(),
    ensures
        x == buf@[off as int],
{
    *slice_index_get(buf, off)
}

pub fn read_u16(buf: &[u8], off: usize) -> (x: u16)
    requires
        off + 2 <= buf@.len(),
    ensures
        x == spec_u16_at(buf@, off as int),
{
    let l = buf.len();
    let end = off + 2;
    u16_from_le_bytes(slice_subrange(buf, off, end))
}

pub fn read_u32(buf: &[u8], off: usize) -> (x: u32)
    requires
        off + 4 <= buf@.len(),
    ensures
        x == spec_u32_at(buf@, off as int),
{
    let l = buf.len();
    let end = off + 4;
    u32_from_le_bytes(slice_subrange(buf, off, end))
}

pub fn read_u64(buf: &[u8], off: usize) -> (x: u64)
    requires
        off + 8 <= buf@.len(),
    ensures
        x == spec_u64_at(buf@, off as int),
{
    let l = buf.len();
    let end = off + 8;
    u64_from_le_bytes(slice_subrange(buf, off, end))
}

/// Whether two byte slices hold the same bytes.
pub fn bytes_eq(a: &[u8], b: &[u8]) -> (r: bool)
    ensures
        r <==> a@ == b@,
{
    let n = a.len();
    if n != b.len() {
        return false;
    }
    let mut i: usize = 0;
    while i < n
        invariant
            0 <= i <= n,
            n == a@.len() == b@.len(),
            forall|k: int| 0 <= k < i ==> a@[k] == b@[k],
        decreases n - i,
    {
        if *slice_index_get(a, i) != *slice_index_get(b, i) {
            return false;
        }
        i = i + 1;
    }
    proof {
        assert(a@ =~= b@);
    }
    true
}

/// A field that is either a recognised enumerant or an arbitrary bit
/// pattern.  `unknown` reads the raw integer unconditionally; `known`
/// decodes it, handing the raw value back when it is not recognised.
/// The decoded value always round-trips to the raw one.
pub trait ToKnown: Sized {
    type Known;

    type Unknown;

    /// The raw integer this field holds.
    spec fn raw_spec(&self) -> Self::Unknown;

    /// The decoding relation: the symbolic value, if the raw one is recognised.
    spec fn known_spec(&self) -> Option<Self::Known>;

    /// The raw integer a symbolic value stands for.
    spec fn raw_of_spec(k: Self::Known) -> Self::Unknown;

    fn known(&self) -> (r: Result<Self::Known, Self::Unknown>)
        ensures
            match r {
                Ok(v) => self.known_spec() == Some(v) && Self::raw_of_spec(v) == self.raw_spec(),
                Err(u) => self.known_spec() is None && u == self.raw_spec(),
            },
    ;

    fn unknown(&self) -> (r: Self::Unknown)
        ensures
            r == self.raw_spec(),
    ;
}

/// A fixed-layout record that admits every byte pattern, so that a
/// sufficiently long, sufficiently aligned byte buffer can be read as one.
/// `decodes` relates a record value to the little-endian bytes it was read
/// from; `from_bytes` is the one primitive that performs that read.
pub trait TransmuteSafe: Sized {
    /// The record's size in the ELF ABI, in bytes.
    spec fn size_spec() -> int;

    /// The record's alignment in the ELF ABI, in bytes.
    spec fn align_spec() -> int;

    /// `self` holds exactly what the `size_spec()` bytes `s` encode.
    spec fn decodes(&self, s: Seq<u8>) -> bool;

    fn record_size() -> (n: usize)
        ensures
            n == Self::size_spec(),
            1 <= n <= 64,
    ;

    fn record_align() -> (n: usize)
        ensures
            n == Self::align_spec(),
            1 <= n,
    ;

    fn from_bytes(buf: &[u8], off: usize) -> (r: Self)
        requires
            off + Self::size_spec() <= buf@.len(),
        ensures
            r.decodes(buf@.subrange(off as int, off + Self::size_spec())),
    ;

    /// Reads one record from the head of `buf` and returns it with the
    /// remaining tail.  Fails with `Transmute` exactly when the buffer is
    /// shorter than the record.
    fn from_buf(buf: &[u8]) -> (r: Result<(Self, &[u8]), Error>)
        ensures
            r is Ok <==> Self::size_spec() <= buf@.len(),
            match r {
                Ok((t, tail)) => t.decodes(buf@.subrange(0, Self::size_spec())) && tail@
                    == buf@.skip(Self::size_spec()),
                Err(e) => e == Error::Transmute,
            },
    {
        let sz = Self::record_size();
        if buf.len() < sz {
            return Err(Error::Transmute);
        }
        let t = Self::from_bytes(buf, 0);
        let tail = slice_subrange(buf, sz, buf.len());
        proof {
            assert(tail@ =~= buf@.skip(Self::size_spec()));
        }
        Ok((t, tail))
    }

    /// Reads one record at byte offset `off` of `buf`.  Fails with
    /// `Transmute` exactly when the buffer ends before the record does.
    fn from_buf_at(buf: &[u8], off: usize) -> (r: Result<Self, Error>)
        ensures
            r is Ok <==> off + Self::size_spec() <= buf@.len(),
            match r {
                Ok(t) => t.decodes(buf@.subrange(off as int, off + Self::size_spec())),
                Err(e) => e == Error::Transmute,
            },
    {
        let sz = Self::record_size();
        let l = buf.len();
        if off > l || l - off < sz {
            return Err(Error::Transmute);
        }
        Ok(Self::from_bytes(buf, off))
    }

    /// Reads `n` consecutive records from the head of `buf` and returns
    /// them with the remaining tail.  Fails with `Transmute` exactly when
    /// the buffer is shorter than the `n` records together.
    fn slice_from_buf(buf: &[u8], n: usize) -> (r: Result<(Vec<Self>, &[u8]), Error>)
        ensures
            r is Ok <==> n * Self::size_spec() <= buf@.len(),
            match r {
                Ok((v, tail)) => v@.len() == n && (forall|i: int|
                    0 <= i < n ==> v@[i].decodes(
                        buf@.subrange(i * Self::size_spec(), (i + 1) * Self::size_spec()),
                    )) && tail@ == buf@.skip(n * Self::size_spec()),
                Err(e) => e == Error::Transmute,
            },
    {
        let sz = Self::record_size();
        let ghost ln: int = buf@.len() as int;
        let ghost sv: int = sz as int;
        if n > buf.len() / sz {
            proof {
                lemma_fundamental_div_mod(ln, sv);
                assert(n * Self::size_spec() > ln) by (nonlinear_arith)
                    requires
                        n > ln / sv,
                        sv == Self::size_spec(),
                        1 <= sv,
                        ln == sv * (ln / sv) + ln % sv,
                        ln % sv < sv,
                ;
            }
            return Err(Error::Transmute);
        }
        proof {
            lemma_fundamental_div_mod(ln, sv);
            assert(n * Self::size_spec() <= ln) by (nonlinear_arith)
                requires
                    n <= ln / sv,
                    sv == Self::size_spec(),
                    1 <= sv,
                    ln == sv * (ln / sv) + ln % sv,
                    0 <= ln % sv,
            ;
        }
        let total = n * sz;
        let mut v: Vec<Self> = Vec::new();
        let mut i: usize = 0;
        while i < n
            invariant
                0 <= i <= n,
                sz == Self::size_spec(),
                1 <= sz <= 64,
                total == n * sz <= buf@.len(),
                v@.len() == i,
                forall|j: int|
                    0 <= j < i ==> v@[j].decodes(
                        buf@.subrange(j * Self::size_spec(), (j + 1) * Self::size_spec()),
                    ),
            decreases n - i,
        {
            proof {
                lemma_mul_inequality(i + 1, n as int, sz as int);
                lemma_mul_is_distributive_add_other_way(sz as int, i as int, 1);
            }
            let t = Self::from_bytes(buf, i * sz);
            v.push(t);
            i = i + 1;
        }
        let tail = slice_subrange(buf, total, buf.len());
        proof {
            assert(tail@ =~= buf@.skip(n * Self::size_spec()));
        }
        Ok((v, tail))
    }
}

/// The uppercase hex digit for `d`.
pub open spec fn spec_hex_digit(d: int) -> Seq<char> {
    if d == 0 {
        "0"@
    } else if d == 1 {
        "1"@
    } else if d == 2 {
        "2"@
    } else if d == 3 {
        "3"@
    } else if d == 4 {
        "4"@
    } else if d == 5 {
        "5"@
    } else if d == 6 {
        "6"@
    } else if d == 7 {
        "7"@
    } else if d == 8 {
        "8"@
    } else if d == 9 {
        "9"@
    } else if d == 10 {
        "A"@
    } else if d == 11 {
        "B"@
    } else if d == 12 {
        "C"@
    } else if d == 13 {
        "D"@
    } else if d == 14 {
        "E"@
    } else {
        "F"@
    }
}

/// The uppercase hex rendering of `v`, without leading zeroes.
pub open spec fn spec_hex(v: int) -> Seq<char>
    decreases v,
    when v >= 0
{
    if v < 16 {
        spec_hex_digit(v)
    } else {
        spec_hex(v / 16) + spec_hex_digit(v % 16)
    }
}

fn hex_digit(d: u64) -> (r: &'static str)
    requires
        d < 16,
    ensures
        r@ == spec_hex_digit(d as int),
{
    match d {
        0 => "0",
        1 => "1",
        2 => "2",
        3 => "3",
        4 => "4",
        5 => "5",
        6 => "6",
        7 => "7",
        8 => "8",
        9 => "9",
        10 => "A",
        11 => "B",
        12 => "C",
        13 => "D",
        14 => "E",
        _ => "F",
    }
}

/// Renders `v` in uppercase hex without leading zeroes.
pub fn hex_str(v: u64) -> (r: String)
    ensures
        r@ == spec_hex(v as int),
    decreases v,
{
    if v < 16 {
        String::from_str(hex_digit(v))
    } else {
        let mut s = hex_str(v / 16);
        s.append(hex_digit(v % 16));
        s
    }
}

} // verus!
