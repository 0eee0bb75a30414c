use vstd::prelude::*;

verus! {

use crate::mods::Mod;
use crate::paths::clone_string;

/// The catalog's thumbnail record for one mod.
pub struct Thumbnail {
    pub id: u32,
    pub user_id: u32,
    pub mod_id: u32,
    pub has_thumb: bool,
    pub file: String,
    pub kind: String,
    pub size: u32,
    pub created_at: String,
    pub updated_at: String,
    pub display_order: u32,
    pub visible: bool,
}

/// The catalog's author record.
pub struct UserData {
    pub name: String,
}

/// One mod summary as the remote catalog describes it.
pub struct Payday2Mod {
    pub id: u32,
    pub name: String,
    pub desc: String,
    pub downloads: u32,
    pub user: UserData,
    pub has_download: bool,
    pub download_type: Option<String>,
    pub thumbnail: Option<Thumbnail>,
}

/// The catalog client for this game. Its network side lives in the
/// shell; the mapping of catalog records into universal mod records is
/// here, where it is checked.
pub struct Payday2API;

/// `m` is `p` mapped into the universal record: the id, name and
/// description carry over, the thumbnail keeps its file reference, and
/// the fields the catalog does not supply take their fixed values.
pub open spec fn converted_mod(p: &Payday2Mod, m: &Mod) -> bool {
    &&& m.id == p.id
    &&& m.name@ == p.name@
    &&& m.description@ == p.desc@
    &&& m.version == 0i64
    &&& m.download_url@ == "None"@
    &&& m.installed == false
    &&& (m.thumbnail is Some <==> p.thumbnail is Some)
    &&& (p.thumbnail matches Some(t) ==> m.thumbnail matches Some(f) && f@ == t.file@)
}

impl Payday2API {
    /// Maps a page of catalog records into universal mod records, one for
    /// one and in order.
    pub fn convert_mods(mods: &Vec<Payday2Mod>) -> (r: Vec<Mod>)
        ensures
            r@.len() == mods@.len(),
            forall|i: int| 0 <= i < mods@.len() ==> converted_mod(&mods@[i], &#[trigger] r@[i]),
    {
        let mut out: Vec<Mod> = Vec::new();
        let mut i: usize = 0;
        while i < mods.len()
            invariant
                i <= mods@.len(),
                out@.len() == i,
                forall|j: int| 0 <= j < i ==> converted_mod(&mods@[j], &#[trigger] out@[j]),
            decreases mods@.len() - i,
        {
            let p = &mods[i];
            let thumbnail = match &p.thumbnail {
                Some(t) => Some(clone_string(&t.file)),
                None => None,
            };
            out.push(
                Mod {
                    id: p.id,
                    name: clone_string(&p.name),
                    description: clone_string(&p.desc),
                    version: 0,
                    download_url: String::from_str("None"),
                    installed: false,
                    thumbnail,
                },
            );
            i = i + 1;
        }
        out
    }
}

} // verus!
