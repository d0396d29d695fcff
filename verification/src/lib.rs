use vstd::prelude::*;

pub mod numbers;
pub mod text;
pub mod signs;
pub mod inventory;
pub mod monsters;
pub mod player;
pub mod combat;
pub mod quests;
pub mod alchemy;
pub mod dialogue;
pub mod world;
pub mod game_state;
pub mod limits;
pub mod content;
pub mod laws;
