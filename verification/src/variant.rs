//! The choice between the two renderers, made once by whoever configures the
//! program and never looked at again by the renderers themselves.

use vstd::prelude::*;

verus! {

/// Which of the two renderers is in use. Exactly one is, at any time.
#[derive(Clone, Copy, Debug, PartialEq, Eq, Structural)]
pub enum Variant {
    /// The renderer that prints through `itoa`.
    WithItoa,
    /// The renderer that does without it.
    WithoutItoa,
}

impl Variant {
    /// What the chosen renderer returns.
    pub open spec fn rendered(self) -> Seq<char> {
        match self {
            Variant::WithItoa => "7"@,
            Variant::WithoutItoa => "missing"@,
        }
    }

    /// Renders with the chosen renderer, and with no other.
    pub fn render(self) -> (text: String)
        ensures
            text@ == self.rendered(),
    {
        match self {
            Variant::WithItoa => crate::with_itoa::render(),
            Variant::WithoutItoa => crate::without_itoa::render(),
        }
    }
}

/// The two renderers never agree, so a caller can always tell which one is in
/// use from what it rendered.
pub proof fn variants_render_differently(a: Variant, b: Variant)
    ensures
        a.rendered() == b.rendered() <==> a == b,
{
    reveal_strlit("7");
    reveal_strlit("missing");
    assert("7"@.len() != "missing"@.len());
}

} // verus!
