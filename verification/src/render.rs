use vstd::prelude::*;

verus! {

/// How polygons are rasterised: filled, or as outlines only.
#[derive(Clone, Copy, Debug, PartialEq, Eq, Structural)]
pub enum PolygonMode {
    Fill,
    Line,
}

impl PolygonMode {
    /// The mode that a wireframe toggle switches to: outlines become filled
    /// polygons, anything else becomes outlines.
    pub open spec fn spec_toggled(self) -> PolygonMode {
        if self is Line {
            PolygonMode::Fill
        } else {
            PolygonMode::Line
        }
    }

    /// The mode that a wireframe toggle switches to.
    pub fn toggled(&self) -> (r: PolygonMode)
        ensures
            r == self.spec_toggled(),
            r != *self,
    {
        match self {
            PolygonMode::Line => PolygonMode::Fill,
            PolygonMode::Fill => PolygonMode::Line,
        }
    }
}

/// Toggling twice gives the mode back.
pub proof fn lemma_toggle_twice(mode: PolygonMode)
    ensures
        mode.spec_toggled().spec_toggled() == mode,
{
}

} // verus!
