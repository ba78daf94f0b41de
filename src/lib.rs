pub mod ability;
pub mod buff;
pub mod collections;
pub mod geometry;
pub mod pixel_map;
pub mod unit_type;
pub mod upgrade;
pub mod game_data;
pub mod action;
pub mod combat;
pub mod unit;
pub mod stats;
pub mod weapon_stats;
pub mod orders;
