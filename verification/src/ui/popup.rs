use vstd::prelude::*;

verus! {

/// The text-entry box: holds what the player has typed.
#[derive(Debug, PartialEq, Eq)]
pub struct Popup {
    pub input: String,
}

impl Popup {
    /// Creates a text-entry box with nothing typed.
    pub fn new() -> (popup: Popup)
        ensures
            popup.input@ == Seq::<char>::empty(),
    {
        Popup { input: String::new() }
    }
}

} // verus!
