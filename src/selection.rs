//! The text the user has selected, as the library hands it on.

use vstd::prelude::*;
use crate::text::{trim_str, trimmed};

verus! {

/// The selection `raw` that the platform reported, with leading and trailing
/// white space removed; empty when nothing was selected.
pub fn get_text(raw: &str) -> (r: String)
    ensures
        r@ == trimmed(raw@),
{
    trim_str(raw).to_owned()
}

} // verus!
