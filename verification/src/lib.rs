//! A verified core for a game mod manager.
//!
//! The library covers the acquisition-and-installation pipeline for mods:
//! resolving a download URL for a mod id, staging the fetched archive,
//! extracting it into a per-mod scratch tree, classifying the extracted
//! content by marker files, and relocating it into one of two installation
//! roots. Filesystem and network effects are modelled as data; a thin
//! unverified shell performs the actual I/O by following the actions this
//! library computes.

pub mod archive;
pub mod download;
pub mod errors;
pub mod game_manager;
pub mod games;
pub mod install;
pub mod mod_manager;
pub mod mods;
pub mod paths;
pub mod payday2;
pub mod payday2_game;
pub mod pipeline;
pub mod resolver;
pub mod settings;
pub mod steam_game;
pub mod text;

pub use errors::ModManagerError;
pub use game_manager::GameManager;
pub use games::Game;
pub use install::{copy_all_cross_device, unzip_mod};
pub use mod_manager::InstalledGame;
pub use mods::Mod;
pub use payday2::{Payday2API, Payday2Mod};
pub use payday2_game::Payday2Game;
pub use settings::AppSettings;
pub use steam_game::SteamGame;
pub use text::u32_to_string;
