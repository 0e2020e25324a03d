use vstd::prelude::*;

verus! {

/// Interactive mode of the application. Exactly one is active at a time.
#[derive(Clone, Copy, Debug, PartialEq, Eq, Structural)]
pub enum StateType {
    /// The main menu.
    MainMenu,
    /// The player types a name.
    Name,
    /// The player confirms the name typed.
    NameConfirm,
    /// The game is running.
    Game,
    /// The player picks a town to travel to.
    Travel,
    /// The game was saved.
    GameSaveSuccess,
    /// The game could not be saved.
    GameSaveError,
    /// The game could not be loaded.
    GameLoadError,
    /// The game could not be set up.
    GameInitError,
    /// The player confirms leaving the game.
    GameQuit,
}

/// Holds the interactive mode that the application is in.
#[derive(Clone, Copy, Debug, PartialEq, Eq, Structural)]
pub struct StateManager {
    pub current_state: StateType,
}

impl StateManager {
    /// The state manager of an application that has just started.
    pub open spec fn new_spec() -> StateManager {
        StateManager { current_state: StateType::MainMenu }
    }

    /// Creates a state manager that is at the main menu.
    pub fn new() -> (manager: StateManager)
        ensures
            manager == StateManager::new_spec(),
    {
        StateManager { current_state: StateType::MainMenu }
    }

    /// Returns the mode that the application is in.
    pub fn current(&self) -> (state: StateType)
        ensures
            state == self.current_state,
    {
        self.current_state
    }
}

} // verus!
