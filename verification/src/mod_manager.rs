use vstd::prelude::*;

verus! {

/// One locally installed game, as discovered in the platform's library:
/// its platform catalog id, its display name when the manifest carries
/// one, and where it is installed. Discovery itself walks the disk and
/// lives in the shell; this record is what it hands over.
pub struct InstalledGame {
    pub app_id: u32,
    pub name: Option<String>,
    pub install_dir: String,
}

} // verus!
