use vstd::prelude::*;

verus! {

/// A message to the render loop.
#[derive(Clone, Copy, Debug, PartialEq, Eq, Structural)]
pub enum RenderMsg {
    /// The window now has this size, in physical pixels.
    Resize { width: u32, height: u32 },
    /// A frame should be painted.
    Paint,
    /// The application went to the background.
    Suspend,
    /// The application came back to the foreground.
    Resume,
    /// The render loop should end.
    Exit,
}

} // verus!
