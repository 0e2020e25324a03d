use vstd::prelude::*;

verus! {

/// A player of the game.
#[derive(Debug, PartialEq, Eq)]
pub struct Player {
    pub id: u32,
    pub name: String,
}

/// A player, as contracts see it.
pub struct PlayerView {
    pub id: u32,
    pub name: Seq<char>,
}

impl View for Player {
    type V = PlayerView;

    open spec fn view(&self) -> PlayerView {
        PlayerView { id: self.id, name: self.name@ }
    }
}

impl Player {
    /// Creates a player with the given id and name.
    pub fn new(id: u32, name: String) -> (player: Player)
        ensures
            player@ == (PlayerView { id, name: name@ }),
    {
        Player { id, name }
    }
}

impl Clone for Player {
    fn clone(&self) -> (copy: Player)
        ensures
            copy@ == self@,
    {
        Player { id: self.id, name: self.name.clone() }
    }
}

} // verus!
