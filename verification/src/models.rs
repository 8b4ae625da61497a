//! Helpers for the request models.
use vstd::prelude::*;

use crate::text::opt_view;

verus! {

/// An optional string with `""` read as absent: newer clients send `""`
/// instead of `null` for absent folder ids.
pub fn filter_nonempty(value: Option<String>) -> (r: Option<String>)
    ensures
        opt_view(r) == match opt_view(value) {
            Some(s) => if s.len() > 0 {
                Some(s)
            } else {
                None
            },
            None => None,
        },
{
    match value {
        Some(s) => if s.as_str().is_empty() {
            None
        } else {
            Some(s)
        },
        None => None,
    }
}

} // verus!
