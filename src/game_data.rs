use vstd::prelude::*;
use rustc_hash::FxHashMap;
use crate::ability::AbilityId;
use crate::buff::BuffId;
use crate::unit_type::UnitTypeId;
use crate::upgrade::UpgradeId;

verus! {

/// Which units a weapon can hit.
#[derive(Clone, Copy, PartialEq, Eq, Structural, Debug, Hash)]
pub enum TargetType {
    Ground,
    Air,
    Any,
}

/// A categorical tag of a unit type; bonus damage is keyed by these.
#[derive(Clone, Copy, PartialEq, Eq, Structural, Debug, Hash)]
pub enum Attribute {
    Light,
    Armored,
    Biological,
    Mechanical,
    Robotic,
    Psionic,
    Massive,
    Structure,
    Hover,
    Heroic,
    Summoned,
}

#[derive(Clone, Copy, PartialEq, Eq, Structural, Debug, Hash)]
pub enum Race {
    Terran,
    Zerg,
    Protoss,
    Random,
}

/// A weapon of a unit type.
/// `range` is in thousandths of a cell, `speed` (the interval between two
/// uses) in milliseconds of game time; a use strikes `attacks` times.
pub struct Weapon {
    pub target: TargetType,
    pub damage: u32,
    pub damage_bonus: Vec<(Attribute, u32)>,
    pub attacks: u32,
    pub range: u32,
    pub speed: u32,
}

/// Static data of a unit type. Speeds are in thousandths of a cell per
/// second, ranges in thousandths of a cell, supply in thousandths.
pub struct UnitTypeData {
    pub race: Race,
    pub movement_speed: u32,
    pub armor: i32,
    pub weapons: Vec<Weapon>,
    pub attributes: Vec<Attribute>,
    pub has_minerals: bool,
    pub has_vespene: bool,
    pub cargo_size: u32,
    pub sight_range: u32,
    pub food_required: u32,
    pub ability: Option<AbilityId>,
}

/// Static data of an ability; the footprint radius is in thousandths of a cell.
pub struct AbilityData {
    pub footprint_radius: Option<u32>,
}

/// Static data of an upgrade: the ability that researches it.
pub struct UpgradeData {
    pub ability: AbilityId,
}

/// The game's reference tables, keyed by identifier.
pub struct GameData {
    pub units: FxHashMap<UnitTypeId, UnitTypeData>,
    pub abilities: FxHashMap<AbilityId, AbilityData>,
    pub upgrades: FxHashMap<UpgradeId, UpgradeData>,
}

/// Extra damage that each attack-upgrade level gives the weapons of a unit
/// type that hit `target`: `per_level` on the base damage (one when absent),
/// and per attribute on the bonus damage.
pub struct UpgradeDamage {
    pub target: TargetType,
    pub per_level: Option<u32>,
    pub attribute_bonus: Vec<(Attribute, u32)>,
}

/// Tables that complete or override the game's data. Every speed factor is
/// in thousandths (1500 makes a unit half again as fast).
pub struct RuleTables {
    pub speed_buffs: FxHashMap<BuffId, u32>,
    pub speed_upgrades: FxHashMap<UnitTypeId, (UpgradeId, u32)>,
    pub speed_on_creep: FxHashMap<UnitTypeId, u32>,
    pub off_creep_speed_upgrades: FxHashMap<UnitTypeId, (UpgradeId, u32)>,
    pub damage_bonus_per_upgrade: FxHashMap<UnitTypeId, Vec<UpgradeDamage>>,
    pub missed_weapons: FxHashMap<UnitTypeId, Vec<Weapon>>,
    pub warpgate_abilities: FxHashMap<UnitTypeId, AbilityId>,
}

/// Unit types that depend on the bot's race.
pub struct RaceValues {
    pub gas: UnitTypeId,
}

/// Whether `attrs` holds `a`.
pub fn contains_attribute(attrs: &[Attribute], a: Attribute) -> (r: bool)
    ensures
        r == attrs@.contains(a),
{
    let mut i: usize = 0;
    while i < attrs.len()
        invariant
            i <= attrs@.len(),
            forall|j: int| 0 <= j < i ==> attrs@[j] != a,
        decreases attrs@.len() - i,
    {
        if attrs[i] == a {
            return true;
        }
        i = i + 1;
    }
    false
}

/// The value paired with the first occurrence of `a` in `pairs`.
pub open spec fn spec_lookup_attribute(pairs: Seq<(Attribute, u32)>, a: Attribute) -> Option<u32>
    decreases pairs.len(),
{
    if pairs.len() == 0 {
        None
    } else if pairs[0].0 == a {
        Some(pairs[0].1)
    } else {
        spec_lookup_attribute(pairs.drop_first(), a)
    }
}

pub fn lookup_attribute(pairs: &Vec<(Attribute, u32)>, a: Attribute) -> (r: Option<u32>)
    ensures
        r == spec_lookup_attribute(pairs@, a),
{
    let mut i: usize = 0;
    assert(pairs@.skip(0) =~= pairs@);
    while i < pairs.len()
        invariant
            i <= pairs@.len(),
            spec_lookup_attribute(pairs@.skip(i as int), a) == spec_lookup_attribute(pairs@, a),
        decreases pairs@.len() - i,
    {
        assert(pairs@.skip(i as int).drop_first() =~= pairs@.skip(i + 1));
        if pairs[i].0 == a {
            return Some(pairs[i].1);
        }
        i = i + 1;
    }
    None
}

/// The entry of `table` for weapons that hit `target`, the first if several.
pub open spec fn spec_upgrade_damage_for(table: Seq<UpgradeDamage>, target: TargetType) -> Option<UpgradeDamage>
    decreases table.len(),
{
    if table.len() == 0 {
        None
    } else if table[0].target == target {
        Some(table[0])
    } else {
        spec_upgrade_damage_for(table.drop_first(), target)
    }
}

pub fn upgrade_damage_for(table: &[UpgradeDamage], target: TargetType) -> (r: Option<&UpgradeDamage>)
    ensures
        r is None <==> spec_upgrade_damage_for(table@, target) is None,
        r is Some ==> spec_upgrade_damage_for(table@, target) == Some(*r->0),
{
    let mut i: usize = 0;
    assert(table@.skip(0) =~= table@);
    while i < table.len()
        invariant
            i <= table@.len(),
            spec_upgrade_damage_for(table@.skip(i as int), target) == spec_upgrade_damage_for(table@, target),
        decreases table@.len() - i,
    {
        assert(table@.skip(i as int).drop_first() =~= table@.skip(i + 1));
        if table[i].target == target {
            return Some(&table[i]);
        }
        i = i + 1;
    }
    None
}

} // verus!
