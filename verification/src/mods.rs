use vstd::prelude::*;

verus! {

/// The universal mod record every game's catalog is mapped into.
pub struct Mod {
    /// Unique id for the mod.
    pub id: u32,
    /// Name of the mod.
    pub name: String,
    /// Description of the mod.
    pub description: String,
    /// Version information.
    pub version: i64,
    /// URL for downloading the mod.
    pub download_url: String,
    /// Whether the mod is installed or not.
    pub installed: bool,
    /// The link to the thumbnail.
    pub thumbnail: Option<String>,
}

} // verus!
