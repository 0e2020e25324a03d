use vstd::prelude::*;

verus! {

/// A screen of the widget flow.
#[derive(Clone, Copy, Debug, PartialEq, Eq, Structural)]
pub enum Screen {
    MainMenu,
    NewGame,
}

/// The screen that is shown, and the one to go back to.
#[derive(Clone, Copy, Debug, PartialEq, Eq, Structural)]
pub struct State {
    pub state_type: Screen,
    pub last_state: Screen,
}

impl State {
    /// Creates the state of the main menu, with the main menu to go back to.
    pub fn new() -> (state: State)
        ensures
            state == (State { state_type: Screen::MainMenu, last_state: Screen::MainMenu }),
    {
        State { state_type: Screen::MainMenu, last_state: Screen::MainMenu }
    }
}

} // verus!
