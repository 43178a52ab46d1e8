//! Sizes in bytes, written for people.

use humansize::{format_size, BINARY};
use vstd::prelude::*;
use vstd::string::*;

verus! {

/// What `humansize::format_size` gives for a number of bytes with its `BINARY` options.
pub uninterp spec fn binary_size(bytes: u64) -> Seq<char>;

/// `humansize::format_size` with the options `BINARY`: the text depends on the number
/// of bytes alone.
#[verifier::external_body]
pub(crate) fn format_bytes(bytes: u64) -> (r: String)
    ensures
        r@ == binary_size(bytes),
{
    format_size(bytes, BINARY)
}

/// A size out of another one.
pub open spec fn usage_of(used: Seq<char>, limit: Seq<char>) -> Seq<char> {
    used + " / "@ + limit
}

/// Writes a size out of another one.
pub fn usage_text(used: &str, limit: &str) -> (r: String)
    ensures
        r@ == usage_of(used@, limit@),
{
    let mut out = used.to_owned();
    out.append(" / ");
    out.append(limit);
    out
}

/// A reading of memory: how much of what, and the percentage.
pub open spec fn reading_text(used: Seq<char>, limit: Seq<char>, pct: Seq<char>) -> Seq<char> {
    "MEM "@ + usage_of(used, limit) + " ("@ + pct + "%)"@
}

/// Writes a reading of memory.
pub fn mem_reading(used: &str, limit: &str, pct: &str) -> (r: String)
    ensures
        r@ == reading_text(used@, limit@, pct@),
{
    let mut out = "MEM ".to_owned();
    out.append(usage_text(used, limit).as_str());
    out.append(" (");
    out.append(pct);
    out.append("%)");
    out
}

} // verus!
