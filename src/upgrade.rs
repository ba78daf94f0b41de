use vstd::prelude::*;

verus! {

/// Identifier of an upgrade, as the game reports it.
pub type UpgradeId = u32;

pub const CHITINOUS_PLATING: UpgradeId = 4;
pub const HI_SEC_AUTO_TRACKING: UpgradeId = 5;
pub const TERRAN_BUILDING_ARMOR: UpgradeId = 6;
pub const HIGH_CAPACITY_BARRELS: UpgradeId = 19;
pub const ZERGLING_ATTACK_SPEED: UpgradeId = 65;
pub const PHOENIX_RANGE_UPGRADE: UpgradeId = 99;
pub const TERRAN_VEHICLE_AND_SHIP_ARMORS_LEVEL1: UpgradeId = 116;
pub const TERRAN_VEHICLE_AND_SHIP_ARMORS_LEVEL2: UpgradeId = 117;
pub const TERRAN_VEHICLE_AND_SHIP_ARMORS_LEVEL3: UpgradeId = 118;
pub const ADEPT_PIERCING_ATTACK: UpgradeId = 130;
pub const EVOLVE_GROOVED_SPINES: UpgradeId = 134;

} // verus!
