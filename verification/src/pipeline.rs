use vstd::prelude::*;

verus! {

/// Which of the two precompiled shader pipelines a frame is drawn with.
///
/// `Standard` consumes the shape's vertex buffer; `PositionColor` draws from
/// hardcoded shader data. Both are built once at startup, so switching modes
/// never recompiles anything.
#[derive(Clone, Copy, Debug, PartialEq, Eq, Structural)]
pub enum RenderState {
    Standard,
    PositionColor,
}

/// The other pipeline selection: the two modes form a 2-cycle.
pub open spec fn toggled_mode(m: RenderState) -> RenderState {
    match m {
        RenderState::Standard => RenderState::PositionColor,
        RenderState::PositionColor => RenderState::Standard,
    }
}

/// Selects the active pipeline. The compiled pipeline handles themselves live
/// with the renderer; this holds only which of the two is active.
pub struct RenderPipelineState {
    pub state: RenderState,
}

impl RenderPipelineState {
    /// A fresh selection starts on the standard pipeline.
    pub fn new() -> (s: Self)
        ensures
            s.state == RenderState::Standard,
    {
        RenderPipelineState { state: RenderState::Standard }
    }

    /// The selection the active pipeline is taken from.
    pub fn pipeline(&self) -> (r: RenderState)
        ensures
            r == self.state,
    {
        self.state
    }

    /// The selection that a mode toggle switches to.
    pub fn next(&self) -> (r: RenderState)
        ensures
            r == toggled_mode(self.state),
    {
        match self.state {
            RenderState::Standard => RenderState::PositionColor,
            RenderState::PositionColor => RenderState::Standard,
        }
    }
}

/// Toggling the render mode twice returns to the starting mode.
pub proof fn lemma_mode_toggle_involution(m: RenderState)
    ensures
        toggled_mode(toggled_mode(m)) == m,
{
}

} // verus!
