use vstd::prelude::*;

verus! {

/// Identifier of an ability, as the game reports it.
pub type AbilityId = u32;

pub const SMART: AbilityId = 1;
pub const MOVE_MOVE: AbilityId = 16;
pub const SCAN_MOVE: AbilityId = 19;
pub const ATTACK_ATTACK: AbilityId = 23;
pub const ATTACK_ATTACK_TOWARDS: AbilityId = 24;
pub const ATTACK_ATTACK_BARRAGE: AbilityId = 25;
pub const EFFECT_REPAIR_MULE: AbilityId = 78;
pub const CANCEL_QUEUE5: AbilityId = 306;
pub const CANCEL_QUEUE_CANCEL_TO_SELECTION: AbilityId = 308;
pub const CANCEL_BUILD_IN_PROGRESS: AbilityId = 314;
pub const EFFECT_REPAIR_SCV: AbilityId = 316;
pub const BUILD_TECH_LAB_BARRACKS: AbilityId = 421;
pub const BUILD_REACTOR_BARRACKS: AbilityId = 422;
pub const BUILD_TECH_LAB_FACTORY: AbilityId = 454;
pub const BUILD_REACTOR_FACTORY: AbilityId = 455;
pub const BUILD_TECH_LAB_STARPORT: AbilityId = 487;
pub const BUILD_REACTOR_STARPORT: AbilityId = 488;
pub const STOP: AbilityId = 3665;
pub const HARVEST_GATHER: AbilityId = 3666;
pub const HARVEST_RETURN: AbilityId = 3667;
pub const ATTACK: AbilityId = 3674;
pub const EFFECT_REPAIR: AbilityId = 3685;
pub const RESEARCH_TERRAN_VEHICLE_AND_SHIP_PLATING: AbilityId = 3700;
pub const HOLD_POSITION: AbilityId = 3793;
pub const PATROL: AbilityId = 3795;

/// The structure-placing abilities of the three races: Terran builds from
/// 318 to 333, Protoss from 880 to 895, Zerg from 1152 to 1167.
pub open spec fn spec_is_constructing(a: AbilityId) -> bool {
    (318 <= a <= 333 && a != 325 && a != 330 && a != 332)
        || (880 <= a <= 895 && a != 888)
        || (1152 <= a <= 1167 && a != 1164)
}

/// Whether the ability places a structure.
pub fn is_constructing(a: AbilityId) -> (r: bool)
    ensures
        r == spec_is_constructing(a),
{
    (318 <= a && a <= 333 && a != 325 && a != 330 && a != 332)
        || (880 <= a && a <= 895 && a != 888)
        || (1152 <= a && a <= 1167 && a != 1164)
}

} // verus!
