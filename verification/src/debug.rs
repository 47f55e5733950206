//! Debug output switch.

use vstd::prelude::*;
use crate::text::str_eq;

verus! {

/// Kept for callers of the old switch; debug output is controlled by the
/// `LANG_DEBUG` environment variable.
pub fn set_debug(_enabled: bool) {
}

/// Whether debug output is on, given the value of `LANG_DEBUG` (when it is
/// set): exactly when the value is `1`.
pub fn debug_flag(value: Option<&str>) -> (r: bool)
    ensures
        r == (value matches Some(v) && v@ == "1"@),
{
    match value {
        Some(v) => str_eq(v, "1"),
        None => false,
    }
}

} // verus!
