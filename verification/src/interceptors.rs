//! What the operation log records of a command.

use vstd::prelude::*;

verus! {

/// Who performed an operation, as logged: the operator, or "system" when
/// the operation had none.
pub fn operator_label(operator: Option<String>) -> (r: String)
    ensures
        match operator {
            Some(o) => r@ == o@,
            None => r@ == "system"@,
        },
{
    match operator {
        Some(o) => o,
        None => String::from_str("system"),
    }
}

} // verus!
