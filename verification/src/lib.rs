//! Game rules of NovaForge, a cooperative sci-fi space game: factions, ship
//! catalogue, skills, market and inventory, and the decisions of player and
//! NPC ships.

pub mod assoc;
pub mod character;
pub mod combat;
pub mod economy;
pub mod faction;
pub mod npc_ship;
pub mod player_ship;
pub mod ship;
pub mod skills;
pub mod text;
