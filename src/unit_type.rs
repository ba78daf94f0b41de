use vstd::prelude::*;

verus! {

/// Identifier of a unit type, as the game reports it.
pub type UnitTypeId = u32;

pub const COLOSSUS: UnitTypeId = 4;
pub const TECH_LAB: UnitTypeId = 5;
pub const REACTOR: UnitTypeId = 6;
pub const BANELING_COCOON: UnitTypeId = 8;
pub const BANELING: UnitTypeId = 9;
pub const CHANGELING: UnitTypeId = 12;
pub const CHANGELING_ZEALOT: UnitTypeId = 13;
pub const CHANGELING_MARINE_SHIELD: UnitTypeId = 14;
pub const CHANGELING_MARINE: UnitTypeId = 15;
pub const CHANGELING_ZERGLING_WINGS: UnitTypeId = 16;
pub const CHANGELING_ZERGLING: UnitTypeId = 17;
pub const COMMAND_CENTER: UnitTypeId = 18;
pub const REFINERY: UnitTypeId = 20;
pub const MISSILE_TURRET: UnitTypeId = 23;
pub const AUTO_TURRET: UnitTypeId = 31;
pub const SIEGE_TANK_SIEGED: UnitTypeId = 32;
pub const COMMAND_CENTER_FLYING: UnitTypeId = 36;
pub const BARRACKS_TECH_LAB: UnitTypeId = 37;
pub const BARRACKS_REACTOR: UnitTypeId = 38;
pub const FACTORY_TECH_LAB: UnitTypeId = 39;
pub const FACTORY_REACTOR: UnitTypeId = 40;
pub const STARPORT_TECH_LAB: UnitTypeId = 41;
pub const STARPORT_REACTOR: UnitTypeId = 42;
pub const SCV: UnitTypeId = 45;
pub const HELLION: UnitTypeId = 53;
pub const RAVEN: UnitTypeId = 56;
pub const NEXUS: UnitTypeId = 59;
pub const ASSIMILATOR: UnitTypeId = 61;
pub const PHOTON_CANNON: UnitTypeId = 66;
pub const ZEALOT: UnitTypeId = 73;
pub const DARK_TEMPLAR: UnitTypeId = 76;
pub const PHOENIX: UnitTypeId = 78;
pub const OBSERVER: UnitTypeId = 82;
pub const PROBE: UnitTypeId = 84;
pub const HATCHERY: UnitTypeId = 86;
pub const EXTRACTOR: UnitTypeId = 88;
pub const SPORE_CRAWLER: UnitTypeId = 99;
pub const LAIR: UnitTypeId = 100;
pub const HIVE: UnitTypeId = 101;
pub const DRONE: UnitTypeId = 104;
pub const ZERGLING: UnitTypeId = 105;
pub const HYDRALISK: UnitTypeId = 107;
pub const ULTRALISK: UnitTypeId = 109;
pub const BANELING_BURROWED: UnitTypeId = 115;
pub const OVERSEER: UnitTypeId = 129;
pub const PLANETARY_FORTRESS: UnitTypeId = 130;
pub const ULTRALISK_BURROWED: UnitTypeId = 131;
pub const ORBITAL_COMMAND: UnitTypeId = 132;
pub const ORBITAL_COMMAND_FLYING: UnitTypeId = 134;
pub const BROODLING: UnitTypeId = 289;
pub const ADEPT: UnitTypeId = 311;
pub const HELLION_TANK: UnitTypeId = 484;
pub const RAVAGER_COCOON: UnitTypeId = 687;
pub const RAVAGER: UnitTypeId = 688;
pub const OBSERVER_SIEGE_MODE: UnitTypeId = 1911;
pub const OVERSEER_SIEGE_MODE: UnitTypeId = 1912;

pub open spec fn spec_is_worker(t: UnitTypeId) -> bool {
    t == SCV || t == DRONE || t == PROBE
}

/// Workers: the units that gather resources and construct.
pub fn is_worker(t: UnitTypeId) -> (r: bool)
    ensures
        r == spec_is_worker(t),
{
    t == SCV || t == DRONE || t == PROBE
}

pub open spec fn spec_is_townhall(t: UnitTypeId) -> bool {
    t == COMMAND_CENTER || t == ORBITAL_COMMAND || t == PLANETARY_FORTRESS
        || t == COMMAND_CENTER_FLYING || t == ORBITAL_COMMAND_FLYING || t == HATCHERY
        || t == LAIR || t == HIVE || t == NEXUS
}

/// Town halls: the structures that accept gathered resources.
pub fn is_townhall(t: UnitTypeId) -> (r: bool)
    ensures
        r == spec_is_townhall(t),
{
    t == COMMAND_CENTER || t == ORBITAL_COMMAND || t == PLANETARY_FORTRESS
        || t == COMMAND_CENTER_FLYING || t == ORBITAL_COMMAND_FLYING || t == HATCHERY
        || t == LAIR || t == HIVE || t == NEXUS
}

pub open spec fn spec_is_addon(t: UnitTypeId) -> bool {
    t == TECH_LAB || t == REACTOR || t == BARRACKS_TECH_LAB || t == BARRACKS_REACTOR
        || t == FACTORY_TECH_LAB || t == FACTORY_REACTOR || t == STARPORT_TECH_LAB
        || t == STARPORT_REACTOR
}

/// Add-ons: tech labs and reactors, of any production structure.
pub fn is_addon(t: UnitTypeId) -> (r: bool)
    ensures
        r == spec_is_addon(t),
{
    t == TECH_LAB || t == REACTOR || t == BARRACKS_TECH_LAB || t == BARRACKS_REACTOR
        || t == FACTORY_TECH_LAB || t == FACTORY_REACTOR || t == STARPORT_TECH_LAB
        || t == STARPORT_REACTOR
}

pub open spec fn spec_is_melee(t: UnitTypeId) -> bool {
    t == ZEALOT || t == DARK_TEMPLAR || t == ZERGLING || t == ULTRALISK || t == BROODLING
        || t == SCV || t == DRONE || t == PROBE
}

/// Units whose weapon only strikes at contact range.
pub fn is_melee(t: UnitTypeId) -> (r: bool)
    ensures
        r == spec_is_melee(t),
{
    t == ZEALOT || t == DARK_TEMPLAR || t == ZERGLING || t == ULTRALISK || t == BROODLING
        || t == SCV || t == DRONE || t == PROBE
}

pub open spec fn spec_is_changeling(t: UnitTypeId) -> bool {
    t == CHANGELING || t == CHANGELING_ZEALOT || t == CHANGELING_MARINE_SHIELD
        || t == CHANGELING_MARINE || t == CHANGELING_ZERGLING_WINGS || t == CHANGELING_ZERGLING
}

/// Disguised forms, which never carry a weapon of their own.
pub fn is_changeling(t: UnitTypeId) -> (r: bool)
    ensures
        r == spec_is_changeling(t),
{
    t == CHANGELING || t == CHANGELING_ZEALOT || t == CHANGELING_MARINE_SHIELD
        || t == CHANGELING_MARINE || t == CHANGELING_ZERGLING_WINGS || t == CHANGELING_ZERGLING
}

} // verus!
