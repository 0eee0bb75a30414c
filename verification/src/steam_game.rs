use vstd::prelude::*;

verus! {

/// A placeholder for a further Steam-distributed game: it shows the shape
/// an implementation of the game interface takes. None of its operations
/// are implemented yet.
pub struct SteamGame {
    pub game_dir: String,
    pub name: String,
}

} // verus!
