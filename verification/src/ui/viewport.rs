use vstd::prelude::*;

verus! {

/// The part of the screen that shows the game.
#[derive(Clone, Copy, Debug, PartialEq, Eq, Structural)]
pub struct Viewport {}

impl Viewport {
    /// Creates a viewport.
    pub fn new() -> (viewport: Viewport)
        ensures
            viewport == (Viewport {  }),
    {
        Viewport {  }
    }
}

} // verus!
