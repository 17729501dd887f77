//! The renderer as it is when `itoa` is not available: it says so.

use vstd::prelude::*;

verus! {

/// Renders the fixed word of this variant.
pub fn render() -> (text: String)
    ensures
        text@ == "missing"@,
{
    "missing".to_owned()
}

} // verus!
