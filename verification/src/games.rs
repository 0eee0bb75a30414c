use vstd::prelude::*;

verus! {

use crate::errors::ModManagerError;
use crate::mods::Mod;

/// What every supported game offers the manager. Implementations other
/// than the library's own are supplied by the surrounding application
/// (they drive network and disk work the library only models), so only
/// `get_name` carries a contract the manager's own proofs rely on.
pub trait Game {
    /// The display name of the game, as `get_name` promises to return it.
    /// Implementations outside the library leave the default in place and
    /// supply only the executable methods; the registry's proofs reach
    /// this value through `get_name`'s contract alone.
    open spec fn name_spec(&self) -> Seq<char> {
        Seq::empty()
    }

    /// Lists the game's available mods.
    fn get_mods(&self) -> Result<Vec<Mod>, ModManagerError>;

    /// Begins the download-and-install pipeline for one mod id.
    fn download_mod(&self, mod_id: u32) -> Result<(), String>;

    /// Installs an already-fetched mod from a path.
    fn install_mod(&self, mod_path: String) -> Result<(), String>;

    /// Uninstalls a mod.
    fn uninstall_mod(&self, mod_id: String) -> Result<(), String>;

    /// The game's installation directory, if known.
    fn get_game_dir(&self) -> Option<String>;

    /// The display name of the game.
    fn get_name(&self) -> (r: String)
        ensures
            r@ == self.name_spec(),
    ;
}

} // verus!
