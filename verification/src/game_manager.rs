use vstd::prelude::*;

verus! {

use crate::games::Game;
use crate::paths::string_eq;
use crate::text::{lower_of, lowercase};

/// The registry of loaded games, looked up by case-insensitive name.
pub struct GameManager {
    pub games: Vec<Box<dyn Game>>,
}

impl GameManager {
    /// The display names of the loaded games, in load order.
    pub open spec fn names(&self) -> Seq<Seq<char>> {
        self.games@.map_values(|g: Box<dyn Game>| g.name_spec())
    }

    /// An empty registry.
    pub fn new() -> (r: GameManager)
        ensures
            r.names() =~= Seq::<Seq<char>>::empty(),
    {
        GameManager { games: Vec::new() }
    }

    /// Registers one more game at the end of the registry.
    pub fn load_game(&mut self, game: Box<dyn Game>)
        ensures
            final(self).games@ == old(self).games@.push(game),
    {
        self.games.push(game);
    }

    /// Finds the first loaded game whose name matches `name`, ignoring
    /// case.
    pub fn get_game_by_name(&self, name: &str) -> (r: Option<&Box<dyn Game>>)
        ensures
            match r {
                Some(g) => exists|i: int|
                    0 <= i < self.names().len() && g == &self.games@[i] && lower_of(
                        #[trigger] self.names()[i],
                    ) == lower_of(name@) && (forall|j: int|
                        0 <= j < i ==> lower_of(#[trigger] self.names()[j]) != lower_of(name@)),
                None => forall|i: int|
                    0 <= i < self.names().len() ==> lower_of(#[trigger] self.names()[i])
                        != lower_of(name@),
            },
    {
        let wanted = lowercase(name);
        let mut i: usize = 0;
        while i < self.games.len()
            invariant
                i <= self.games@.len(),
                wanted@ == lower_of(name@),
                forall|j: int|
                    0 <= j < i ==> lower_of(#[trigger] self.names()[j]) != lower_of(name@),
            decreases self.games@.len() - i,
        {
            let gname = self.games[i].get_name();
            let glower = lowercase(gname.as_str());
            if string_eq(&glower, &wanted) {
                proof {
                    assert(self.names()[i as int] == self.games@[i as int].name_spec());
                }
                return Some(&self.games[i]);
            }
            proof {
                assert(self.names()[i as int] == self.games@[i as int].name_spec());
            }
            i = i + 1;
        }
        None
    }

    /// Starts the download of one mod through the named game. When no
    /// loaded game carries that name, nothing happens and the error says
    /// so.
    pub fn execute_download(&self, game_name: &str, mod_id: u32) -> (r: Result<(), String>)
        ensures
            (forall|i: int|
                0 <= i < self.names().len() ==> lower_of(#[trigger] self.names()[i]) != lower_of(
                    game_name@,
                )) ==> (r matches Err(m) && m@ == "Game '"@ + game_name@ + "' not found!"@),
    {
        match self.get_game_by_name(game_name) {
            Some(game) => game.download_mod(mod_id),
            None => {
                let mut msg = String::from_str("Game '");
                msg.append(game_name);
                msg.append("' not found!");
                Err(msg)
            },
        }
    }

    /// The display names of every loaded game, in load order.
    pub fn list_games(&self) -> (r: Vec<String>)
        ensures
            r@.len() == self.names().len(),
            forall|i: int| 0 <= i < r@.len() ==> (#[trigger] r@[i])@ == self.names()[i],
    {
        let mut out: Vec<String> = Vec::new();
        let mut i: usize = 0;
        while i < self.games.len()
            invariant
                i <= self.games@.len(),
                out@.len() == i,
                forall|j: int| 0 <= j < i ==> (#[trigger] out@[j])@ == self.names()[j],
            decreases self.games@.len() - i,
        {
            let gname = self.games[i].get_name();
            out.push(gname);
            proof {
                assert(self.names()[i as int] == self.games@[i as int].name_spec());
            }
            i = i + 1;
        }
        out
    }
}

} // verus!
