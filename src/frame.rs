use vstd::prelude::*;

verus! {

/// Number of completed frames at which the window is revealed.
pub const REVEAL_FRAME: u32 = 3;

/// How many frames have completed since startup. Like the engine's own
/// counter it wraps around instead of overflowing.
#[derive(Clone, Copy, Debug, PartialEq, Eq, Structural)]
pub struct FrameCount(pub u32);

impl FrameCount {
    /// The counter before the first frame.
    pub fn new() -> (r: FrameCount)
        ensures
            r.0 == 0,
    {
        FrameCount(0)
    }

    /// The counter after one more frame has completed.
    pub fn advance(self) -> (r: FrameCount)
        ensures
            r.0 as int == (self.0 as int + 1) % 0x1_0000_0000,
    {
        FrameCount(self.0.wrapping_add(1))
    }
}

/// The state of the primary window that the scene logic decides.
#[derive(Clone, Copy, Debug, PartialEq, Eq, Structural)]
pub struct Window {
    pub visible: bool,
}

impl Window {
    /// The primary window as it is opened: hidden until the renderer is warm.
    pub fn hidden() -> (r: Window)
        ensures
            !r.visible,
    {
        Window { visible: false }
    }
}

/// Whether the window is shown after the reveal check of a frame.
pub open spec fn revealed(visible: bool, frames: FrameCount) -> bool {
    visible || frames.0 == REVEAL_FRAME
}

/// Shows the window once exactly `REVEAL_FRAME` frames have completed.
/// A window that is already shown stays shown.
pub fn make_visible(window: &mut Window, frames: FrameCount)
    ensures
        final(window).visible == revealed(old(window).visible, frames),
{
    if frames.0 == REVEAL_FRAME {
        window.visible = true;
    }
}

} // verus!
