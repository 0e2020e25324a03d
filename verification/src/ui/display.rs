use crate::control::states::StateManager;
use crate::world::manager::WorldManager;
use vstd::prelude::*;

verus! {

/// The managers that the screen is drawn from.
#[derive(Debug, PartialEq, Eq)]
pub struct Managers {
    pub state_manager: StateManager,
    pub world_manager: WorldManager,
}

impl Managers {
    /// Creates the managers of an application at its main menu, with neither
    /// a player nor a world.
    pub fn new() -> (managers: Managers)
        ensures
            managers.state_manager == StateManager::new_spec(),
            managers.world_manager.player is None,
            managers.world_manager.world is None,
    {
        Managers { state_manager: StateManager::new(), world_manager: WorldManager::new() }
    }
}

} // verus!
