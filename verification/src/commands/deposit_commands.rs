//! The deposit commands' defaults.

use vstd::prelude::*;

verus! {

/// The reason recorded for a deposit refund: the given notes, or
/// "正常退房退还押金" (a refund on a normal check-out) without notes.
pub fn refund_reason(notes: Option<&str>) -> (r: &str)
    ensures
        match notes {
            Some(n) => r@ == n@,
            None => r@ == "正常退房退还押金"@,
        },
{
    match notes {
        Some(n) => n,
        None => "正常退房退还押金",
    }
}

} // verus!
