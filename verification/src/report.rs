//! The texts that a report is made of.

use crate::text::{decimal, decimal_string};
use vstd::prelude::*;
use vstd::string::StringExecFns;

verus! {

/// A time in milliseconds as it is shown: the number, a space, `ms`.
pub open spec fn duration_text(ms: u128) -> Seq<char> {
    decimal(ms as nat) + " ms"@
}

/// Writes a time in milliseconds as it is shown.
pub fn format_duration(ms: u128) -> (r: String)
    ensures
        r@ == duration_text(ms),
{
    let mut s = decimal_string(ms);
    s.append(" ms");
    s
}

} // verus!
