use vstd::prelude::*;

verus! {

/// The game this manager was written for. The struct carries what the
/// surrounding application needs to drive the pipeline for it: where the
/// game lives and how it is named in the registry.
pub struct Payday2Game {
    pub game_dir: String,
    pub name: String,
}

impl Payday2Game {
    pub fn new(game_dir: String, name: String) -> (r: Payday2Game)
        ensures
            r.game_dir == game_dir,
            r.name == name,
    {
        Payday2Game { game_dir, name }
    }
}

} // verus!
