use vstd::prelude::*;

verus! {

/// Identifier of a buff, as the game reports it.
pub type BuffId = u32;

pub const GUARDIAN_SHIELD: BuffId = 18;
pub const TIME_WARP_PRODUCTION: BuffId = 20;
pub const STIMPACK_MARAUDER: BuffId = 24;
pub const STIMPACK: BuffId = 27;
pub const MEDIVAC_SPEED_BOOST: BuffId = 89;
pub const VOID_RAY_SWARM_DAMAGE_BOOST: BuffId = 122;
pub const CARRY_MINERAL_FIELD_MINERALS: BuffId = 271;
pub const CARRY_HIGH_YIELD_MINERAL_FIELD_MINERALS: BuffId = 272;
pub const CARRY_HARVESTABLE_VESPENE_GEYSER_GAS: BuffId = 273;
pub const CARRY_HARVESTABLE_VESPENE_GEYSER_GAS_PROTOSS: BuffId = 274;
pub const CARRY_HARVESTABLE_VESPENE_GEYSER_GAS_ZERG: BuffId = 275;
pub const RAVEN_SHREDDER_MISSILE_ARMOR_REDUCTION: BuffId = 280;

} // verus!
