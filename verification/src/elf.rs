//! The ELF parsing engine: fixed-layout records, tagged field decoders,
//! the string pool, the header validator and the parse orchestrator.

use crate::error::Error;
use vstd::prelude::*;

pub mod parse;

use std::io::Write;

verus! {

/// Writes one diagnostic line to standard error.
///
/// Relies on the `writeln` macro over `std::io::stderr`; the write happens
/// at the edge and nothing is claimed about it.
#[verifier::external_body]
fn stderr_line(s: &str) {
    let _ = writeln!(std::io::stderr(), "{}", s);
}

/// Reports a validation failure: writes the one-line diagnostic `s` to
/// standard error and yields the `Elf` error.
pub fn e<T>(s: &str) -> (r: Result<T, Error>)
    ensures
        r matches Err(err) && err == Error::Elf,
{
    stderr_line(s);
    Err(Error::Elf)
}

} // verus!
