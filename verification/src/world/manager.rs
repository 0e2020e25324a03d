use crate::entities::player::Player;
use vstd::prelude::*;

verus! {

/// A town of the world.
#[derive(Debug, PartialEq, Eq)]
pub struct Town {
    pub name: String,
}

/// The world that the game plays in.
#[derive(Debug, PartialEq, Eq)]
pub struct World {
    pub towns: Vec<Town>,
}

impl World {
    /// Names of the towns, in the order in which the world holds them.
    pub open spec fn town_names(self) -> Seq<Seq<char>> {
        Seq::new(self.towns@.len(), |i: int| self.towns@[i].name@)
    }
}

/// Holds the player and the world, once there are any.
#[derive(Debug, PartialEq, Eq)]
pub struct WorldManager {
    pub player: Option<Player>,
    pub world: Option<World>,
}

impl WorldManager {
    /// Creates a world manager that holds neither a player nor a world.
    pub fn new() -> (manager: WorldManager)
        ensures
            manager.player is None,
            manager.world is None,
    {
        WorldManager { player: None, world: None }
    }
}

} // verus!
