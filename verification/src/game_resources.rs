//! What the player has gathered.

use vstd::prelude::*;

verus! {

/// The player's stock of each resource.
#[derive(Clone, Copy, Debug, PartialEq, Eq, Hash, Structural)]
pub struct GameResources {
    pub wood: u32,
    pub stone: u32,
    pub gold: u32,
}

impl Default for GameResources {
    fn default() -> (stock: GameResources)
        ensures
            stock == (GameResources { wood: 0, stone: 0, gold: 0 }),
    {
        GameResources { wood: 0, stone: 0, gold: 0 }
    }
}

impl GameResources {
    /// One more piece of wood, for a tree that was hit.
    pub fn gain_wood(&mut self)
        requires
            old(self).wood < u32::MAX,
        ensures
            *final(self) == (GameResources { wood: (old(self).wood + 1) as u32, ..*old(self) }),
    {
        self.wood = self.wood + 1;
    }
}

} // verus!
