use void_mod_manager::payday2::{Payday2API, Payday2Mod, Thumbnail, UserData};
use void_mod_manager::{AppSettings, Game, GameManager, Mod, ModManagerError, Payday2Game};

struct FakeGame {
    name: String,
    dir: Option<String>,
}

impl Game for FakeGame {
    fn get_mods(&self) -> Result<Vec<Mod>, ModManagerError> {
        Ok(Vec::new())
    }

    fn download_mod(&self, _mod_id: u32) -> Result<(), String> {
        Ok(())
    }

    fn install_mod(&self, _mod_path: String) -> Result<(), String> {
        Err("not implemented".to_string())
    }

    fn uninstall_mod(&self, _mod_id: String) -> Result<(), String> {
        Err("not implemented".to_string())
    }

    fn get_game_dir(&self) -> Option<String> {
        self.dir.clone()
    }

    fn get_name(&self) -> String {
        self.name.clone()
    }
}

fn manager_with(names: &[&str]) -> GameManager {
    let mut m = GameManager::new();
    for n in names {
        m.load_game(Box::new(FakeGame {
            name: n.to_string(),
            dir: None,
        }));
    }
    m
}

#[test]
fn lists_loaded_games_in_order() {
    let m = manager_with(&["PAYDAY 2", "Other Game"]);
    assert_eq!(
        m.list_games(),
        vec!["PAYDAY 2".to_string(), "Other Game".to_string()]
    );
}

#[test]
fn lookup_ignores_case() {
    let m = manager_with(&["PAYDAY 2"]);
    assert!(m.get_game_by_name("payday 2").is_some());
    assert!(m.get_game_by_name("PayDay 2").is_some());
    assert!(m.get_game_by_name("payday 3").is_none());
}

#[test]
fn download_through_a_loaded_game_succeeds() {
    let m = manager_with(&["PAYDAY 2"]);
    assert!(m.execute_download("payday 2", 42).is_ok());
}

#[test]
fn download_through_a_missing_game_names_it() {
    let m = manager_with(&["PAYDAY 2"]);
    let err = m.execute_download("Mystery", 42).unwrap_err();
    assert_eq!(err, "Game 'Mystery' not found!");
}

#[test]
fn payday2_game_keeps_its_construction() {
    let g = Payday2Game::new("/some/path".to_string(), "PAYDAY 2".to_string());
    assert_eq!(g.game_dir, "/some/path");
    assert_eq!(g.name, "PAYDAY 2");
}

#[test]
fn default_settings_are_complete() {
    let s = AppSettings::default();
    assert_eq!(s.theme.unwrap(), "Dark");
    assert_eq!(s.download_path.unwrap(), "/tmp/.void/pd2");
    assert_eq!(s.show_debug_options, Some(false));
}

#[test]
fn fill_defaults_heals_only_missing_fields() {
    let mut s = AppSettings {
        theme: None,
        download_path: Some("/custom".to_string()),
        show_debug_options: None,
    };
    s.fill_defaults();
    assert_eq!(s.theme.unwrap(), "Dark");
    assert_eq!(s.download_path.unwrap(), "/custom");
    assert_eq!(s.show_debug_options, Some(false));
}

#[test]
fn catalog_records_map_to_universal_mods() {
    let mods = vec![
        Payday2Mod {
            id: 1,
            name: "First".to_string(),
            desc: "first mod".to_string(),
            downloads: 10,
            user: UserData {
                name: "alice".to_string(),
            },
            has_download: true,
            download_type: Some("zip".to_string()),
            thumbnail: Some(Thumbnail {
                id: 5,
                user_id: 6,
                mod_id: 1,
                has_thumb: true,
                file: "thumb.png".to_string(),
                kind: "image".to_string(),
                size: 100,
                created_at: "2020".to_string(),
                updated_at: "2021".to_string(),
                display_order: 0,
                visible: true,
            }),
        },
        Payday2Mod {
            id: 2,
            name: "Second".to_string(),
            desc: "second mod".to_string(),
            downloads: 0,
            user: UserData {
                name: "bob".to_string(),
            },
            has_download: false,
            download_type: None,
            thumbnail: None,
        },
    ];
    let out = Payday2API::convert_mods(&mods);
    assert_eq!(out.len(), 2);
    assert_eq!(out[0].id, 1);
    assert_eq!(out[0].name, "First");
    assert_eq!(out[0].description, "first mod");
    assert_eq!(out[0].version, 0);
    assert_eq!(out[0].download_url, "None");
    assert!(!out[0].installed);
    assert_eq!(out[0].thumbnail.as_deref(), Some("thumb.png"));
    assert_eq!(out[1].id, 2);
    assert!(out[1].thumbnail.is_none());
}
