//! The fixed, cyclically ordered catalog of effects.

use vstd::prelude::*;

verus! {

/// The five selectable effects, in their cyclic order.
///
/// The successor of the last variant is the first, so repeated advancing
/// walks the whole ring and returns to the start.
#[derive(Clone, Copy, Debug, PartialEq, Eq, Structural)]
pub enum SelectShader {
    PassThrough,
    Test,
    Pixel,
    Ascii,
    EdgeDetect,
}

/// The successor relation on the effect ring.
pub open spec fn next_effect(e: SelectShader) -> SelectShader {
    match e {
        SelectShader::PassThrough => SelectShader::Test,
        SelectShader::Test => SelectShader::Pixel,
        SelectShader::Pixel => SelectShader::Ascii,
        SelectShader::Ascii => SelectShader::EdgeDetect,
        SelectShader::EdgeDetect => SelectShader::PassThrough,
    }
}

impl SelectShader {
    /// Advance to the next effect on the ring.
    pub fn next(self) -> (r: Self)
        ensures
            r == next_effect(self),
    {
        match self {
            SelectShader::PassThrough => SelectShader::Test,
            SelectShader::Test => SelectShader::Pixel,
            SelectShader::Pixel => SelectShader::Ascii,
            SelectShader::Ascii => SelectShader::EdgeDetect,
            SelectShader::EdgeDetect => SelectShader::PassThrough,
        }
    }
}

/// The successor relation is a 5-cycle: five steps from any effect return to
/// it, and one step from the last variant wraps to the first.
pub proof fn lemma_next_is_five_cycle(e: SelectShader)
    ensures
        next_effect(next_effect(next_effect(next_effect(next_effect(e))))) == e,
        next_effect(SelectShader::EdgeDetect) == SelectShader::PassThrough,
{
}

} // verus!
