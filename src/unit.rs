use vstd::prelude::*;
use rustc_hash::{FxHashMap, FxHashSet};
use crate::ability::AbilityId;
use crate::action::Target;
use crate::buff::{self, BuffId};
use crate::collections::{fx_contains, fx_get};
use crate::game_data::{contains_attribute, Attribute, GameData, Race, RaceValues, RuleTables, UnitTypeData};
use crate::geometry::{Point2, Point3};
use crate::pixel_map::PixelMap;
use crate::unit_type::{self, UnitTypeId};
use crate::upgrade::UpgradeId;

verus! {

broadcast use vstd::std_specs::hash::group_hash_axioms;

/// How an entity is shown this tick.
#[derive(Clone, Copy, PartialEq, Eq, Structural, Debug, Hash)]
pub enum DisplayType {
    /// Fully visible.
    Visible,
    /// A dimmed copy left behind after the unit entered the fog of war.
    Snapshot,
    /// Fully hidden.
    Hidden,
    /// A building whose construction has not started.
    Placeholder,
}

/// Whether an entity is cloaked, and whether that cloak is seen through.
#[derive(Clone, Copy, PartialEq, Eq, Structural, Debug, Hash)]
pub enum CloakState {
    /// Under the fog, so whether it is cloaked is unknown.
    CloakedUnknown,
    Cloaked,
    CloakedDetected,
    NotCloaked,
    CloakedAllied,
}

/// Whose an entity is, relative to the bot.
#[derive(Clone, Copy, PartialEq, Eq, Structural, Debug, Hash)]
pub enum Alliance {
    Mine,
    Enemy,
    Neutral,
    Ally,
}

/// One entry of a unit's order queue; `progress` is in thousandths.
#[derive(Clone, Copy, PartialEq, Eq, Structural, Debug)]
pub struct UnitOrder {
    pub ability: AbilityId,
    pub target: Target,
    pub progress: u32,
}

/// A unit carried inside another.
#[derive(Clone, Copy, PartialEq, Eq, Structural, Debug)]
pub struct PassengerUnit {
    pub tag: u64,
    pub health: u32,
    pub health_max: u32,
    pub shield: u32,
    pub shield_max: u32,
    pub energy: u32,
    pub energy_max: u32,
    pub type_id: UnitTypeId,
}

/// Where a structure sends what it produces.
#[derive(Clone, Copy, PartialEq, Eq, Structural, Debug)]
pub struct RallyTarget {
    /// Always filled.
    pub point: Point2,
    /// Only when the rally targets a unit.
    pub tag: Option<u64>,
}

/// The state shared by every unit of one tick. Cooldowns are in thousandths
/// of a game frame.
pub struct DataForUnit {
    pub game_data: GameData,
    pub tables: RuleTables,
    pub race_values: RaceValues,
    pub techlab_tags: FxHashSet<u64>,
    pub reactor_tags: FxHashSet<u64>,
    pub max_cooldowns: FxHashMap<UnitTypeId, u32>,
    pub last_units_health: FxHashMap<u64, u32>,
    pub abilities_units: FxHashMap<u64, FxHashSet<AbilityId>>,
    pub upgrades: FxHashSet<UpgradeId>,
    pub enemy_upgrades: FxHashSet<UpgradeId>,
    pub creep: PixelMap,
    pub visibility: PixelMap,
    pub game_step: u32,
}

/// An entity as the game reports it for one tick, its values already in the
/// library's units.
pub struct RawUnit {
    pub display_type: DisplayType,
    pub alliance: Alliance,
    pub tag: u64,
    pub type_id: UnitTypeId,
    pub owner: u32,
    pub position: Point3,
    pub facing: u32,
    pub radius: u32,
    pub build_progress: u32,
    pub cloak: CloakState,
    pub buffs: Vec<BuffId>,
    pub detect_range: u32,
    pub radar_range: u32,
    pub is_selected: bool,
    pub is_on_screen: bool,
    pub is_blip: bool,
    pub is_powered: bool,
    pub is_active: bool,
    pub attack_upgrade_level: u32,
    pub armor_upgrade_level: i32,
    pub shield_upgrade_level: i32,
    pub health: Option<u32>,
    pub health_max: Option<u32>,
    pub shield: Option<u32>,
    pub shield_max: Option<u32>,
    pub energy: Option<u32>,
    pub energy_max: Option<u32>,
    pub mineral_contents: Option<u32>,
    pub vespene_contents: Option<u32>,
    pub is_flying: bool,
    pub is_burrowed: bool,
    pub is_hallucination: bool,
    pub orders: Vec<UnitOrder>,
    pub addon_tag: Option<u64>,
    pub passengers: Vec<PassengerUnit>,
    pub cargo_space_taken: Option<u32>,
    pub cargo_space_max: Option<u32>,
    pub assigned_harvesters: Option<u32>,
    pub ideal_harvesters: Option<u32>,
    pub weapon_cooldown: Option<u32>,
    pub engaged_target_tag: Option<u64>,
    pub buff_duration_remain: Option<u32>,
    pub buff_duration_max: Option<u32>,
    pub rally_targets: Vec<RallyTarget>,
}

/// One entity observed this tick, with the tick's shared state.
///
/// Lengths are in thousandths of a cell, `facing` in thousandths of a
/// radian, `build_progress` in thousandths (1000 is complete), and the
/// weapon cooldown in thousandths of a frame. Buffs are kept in the order
/// the game reported them.
pub struct Unit<'a> {
    pub data: &'a DataForUnit,
    pub allow_spam: bool,
    pub display_type: DisplayType,
    pub alliance: Alliance,
    pub tag: u64,
    pub type_id: UnitTypeId,
    pub owner: u32,
    pub position: Point2,
    pub position3d: Point3,
    pub facing: u32,
    pub radius: u32,
    pub build_progress: u32,
    pub cloak: CloakState,
    pub buffs: Vec<BuffId>,
    pub detect_range: u32,
    pub radar_range: u32,
    pub is_selected: bool,
    pub is_on_screen: bool,
    pub is_blip: bool,
    pub is_powered: bool,
    pub is_active: bool,
    pub attack_upgrade_level: u32,
    pub armor_upgrade_level: i32,
    pub shield_upgrade_level: i32,
    // Absent for snapshots.
    pub health: Option<u32>,
    pub health_max: Option<u32>,
    pub shield: Option<u32>,
    pub shield_max: Option<u32>,
    pub energy: Option<u32>,
    pub energy_max: Option<u32>,
    pub mineral_contents: Option<u32>,
    pub vespene_contents: Option<u32>,
    pub is_flying: bool,
    pub is_burrowed: bool,
    pub is_hallucination: bool,
    // Absent for units that are not the bot's.
    pub orders: Vec<UnitOrder>,
    pub addon_tag: Option<u64>,
    pub passengers: Vec<PassengerUnit>,
    pub cargo_space_taken: Option<u32>,
    pub cargo_space_max: Option<u32>,
    pub assigned_harvesters: Option<u32>,
    pub ideal_harvesters: Option<u32>,
    pub weapon_cooldown: Option<u32>,
    pub engaged_target_tag: Option<u64>,
    pub buff_duration_remain: Option<u32>,
    pub buff_duration_max: Option<u32>,
    pub rally_targets: Vec<RallyTarget>,
}

/// Observers see further than the game reports (in thousandths of a cell).
pub open spec fn spec_detect_range(type_id: UnitTypeId, reported: u32) -> u32 {
    if type_id == unit_type::OBSERVER {
        11000
    } else if type_id == unit_type::OBSERVER_SIEGE_MODE {
        13750
    } else {
        reported
    }
}

/// The sum of two optional values: both when both are present, else the
/// one present, else absent.
pub open spec fn spec_sum_present(a: Option<u32>, b: Option<u32>) -> Option<u64> {
    match (a, b) {
        (Some(x), Some(y)) => Some((x + y) as u64),
        (Some(x), None) => Some(x as u64),
        (None, Some(y)) => Some(y as u64),
        (None, None) => None,
    }
}

fn sum_present(a: Option<u32>, b: Option<u32>) -> (r: Option<u64>)
    ensures
        r == spec_sum_present(a, b),
{
    match (a, b) {
        (Some(x), Some(y)) => Some(x as u64 + y as u64),
        (Some(x), None) => Some(x as u64),
        (None, Some(y)) => Some(y as u64),
        (None, None) => None,
    }
}

/// `current / max` in thousandths, rounded down; absent when either is, or
/// when `max` is zero.
pub open spec fn spec_per_mille(current: Option<u64>, max: Option<u64>) -> Option<u64> {
    match (current, max) {
        (Some(c), Some(m)) => if m == 0 {
            None
        } else {
            Some((c * 1000 / (m as int)) as u64)
        },
        _ => None,
    }
}

fn per_mille(current: Option<u64>, max: Option<u64>) -> (r: Option<u64>)
    requires
        current is Some ==> current->0 <= 0x1_0000_0000_0000,
    ensures
        r == spec_per_mille(current, max),
{
    match (current, max) {
        (Some(c), Some(m)) => if m == 0 {
            None
        } else {
            Some(c * 1000 / m)
        },
        _ => None,
    }
}

fn widen(v: Option<u32>) -> (r: Option<u64>)
    ensures
        r == (match v {
            Some(x) => Some(x as u64),
            None => None::<u64>,
        }),
{
    match v {
        Some(x) => Some(x as u64),
        None => None,
    }
}

impl<'a> Unit<'a> {
    /// Builds the unit of this tick from what the game reported of it.
    pub fn from_raw(data: &'a DataForUnit, raw: RawUnit) -> (r: Unit<'a>)
        ensures
            r.data == data,
            !r.allow_spam,
            r.display_type == raw.display_type,
            r.alliance == raw.alliance,
            r.tag == raw.tag,
            r.type_id == raw.type_id,
            r.owner == raw.owner,
            r.position == (Point2 { x: raw.position.x, y: raw.position.y }),
            r.position3d == raw.position,
            r.facing == raw.facing,
            r.radius == raw.radius,
            r.build_progress == raw.build_progress,
            r.cloak == raw.cloak,
            r.buffs@ == raw.buffs@,
            r.detect_range == spec_detect_range(raw.type_id, raw.detect_range),
            r.radar_range == raw.radar_range,
            r.is_selected == raw.is_selected,
            r.is_on_screen == raw.is_on_screen,
            r.is_blip == raw.is_blip,
            r.is_powered == raw.is_powered,
            r.is_active == raw.is_active,
            r.attack_upgrade_level == raw.attack_upgrade_level,
            r.armor_upgrade_level == raw.armor_upgrade_level,
            r.shield_upgrade_level == raw.shield_upgrade_level,
            r.health == raw.health,
            r.health_max == raw.health_max,
            r.shield == raw.shield,
            r.shield_max == raw.shield_max,
            r.energy == raw.energy,
            r.energy_max == raw.energy_max,
            r.mineral_contents == raw.mineral_contents,
            r.vespene_contents == raw.vespene_contents,
            r.is_flying == raw.is_flying,
            r.is_burrowed == raw.is_burrowed,
            r.is_hallucination == raw.is_hallucination,
            r.orders@ == raw.orders@,
            r.addon_tag == raw.addon_tag,
            r.passengers@ == raw.passengers@,
            r.cargo_space_taken == raw.cargo_space_taken,
            r.cargo_space_max == raw.cargo_space_max,
            r.assigned_harvesters == raw.assigned_harvesters,
            r.ideal_harvesters == raw.ideal_harvesters,
            r.weapon_cooldown == raw.weapon_cooldown,
            r.engaged_target_tag == raw.engaged_target_tag,
            r.buff_duration_remain == raw.buff_duration_remain,
            r.buff_duration_max == raw.buff_duration_max,
            r.rally_targets@ == raw.rally_targets@,
    {
        let detect_range = if raw.type_id == unit_type::OBSERVER {
            11000
        } else if raw.type_id == unit_type::OBSERVER_SIEGE_MODE {
            13750
        } else {
            raw.detect_range
        };
        Unit {
            data,
            allow_spam: false,
            display_type: raw.display_type,
            alliance: raw.alliance,
            tag: raw.tag,
            type_id: raw.type_id,
            owner: raw.owner,
            position: Point2 { x: raw.position.x, y: raw.position.y },
            position3d: raw.position,
            facing: raw.facing,
            radius: raw.radius,
            build_progress: raw.build_progress,
            cloak: raw.cloak,
            buffs: raw.buffs,
            detect_range,
            radar_range: raw.radar_range,
            is_selected: raw.is_selected,
            is_on_screen: raw.is_on_screen,
            is_blip: raw.is_blip,
            is_powered: raw.is_powered,
            is_active: raw.is_active,
            attack_upgrade_level: raw.attack_upgrade_level,
            armor_upgrade_level: raw.armor_upgrade_level,
            shield_upgrade_level: raw.shield_upgrade_level,
            health: raw.health,
            health_max: raw.health_max,
            shield: raw.shield,
            shield_max: raw.shield_max,
            energy: raw.energy,
            energy_max: raw.energy_max,
            mineral_contents: raw.mineral_contents,
            vespene_contents: raw.vespene_contents,
            is_flying: raw.is_flying,
            is_burrowed: raw.is_burrowed,
            is_hallucination: raw.is_hallucination,
            orders: raw.orders,
            addon_tag: raw.addon_tag,
            passengers: raw.passengers,
            cargo_space_taken: raw.cargo_space_taken,
            cargo_space_max: raw.cargo_space_max,
            assigned_harvesters: raw.assigned_harvesters,
            ideal_harvesters: raw.ideal_harvesters,
            weapon_cooldown: raw.weapon_cooldown,
            engaged_target_tag: raw.engaged_target_tag,
            buff_duration_remain: raw.buff_duration_remain,
            buff_duration_max: raw.buff_duration_max,
            rally_targets: raw.rally_targets,
        }
    }

    pub open spec fn spec_type_data(&self) -> Option<UnitTypeData> {
        self.data.game_data.units@.get(self.type_id)
    }

    pub(crate) fn type_data(&self) -> (r: Option<&'a UnitTypeData>)
        ensures
            r is None <==> self.spec_type_data() is None,
            r is Some ==> self.spec_type_data() == Some(*r->0),
    {
        fx_get(&self.data.game_data.units, &self.type_id)
    }

    /// The upgrades of whoever owns this unit: the bot's own when it is
    /// the bot's, else the opponent's.
    pub open spec fn spec_upgrades(&self) -> Set<UpgradeId> {
        if self.alliance == Alliance::Mine {
            self.data.upgrades@
        } else {
            self.data.enemy_upgrades@
        }
    }

    /// The upgrades of the other side.
    pub open spec fn spec_other_upgrades(&self) -> Set<UpgradeId> {
        if self.alliance == Alliance::Mine {
            self.data.enemy_upgrades@
        } else {
            self.data.upgrades@
        }
    }

    pub(crate) fn upgrades(&self) -> (r: &'a FxHashSet<UpgradeId>)
        ensures
            r@ == self.spec_upgrades(),
    {
        if self.is_mine() {
            &self.data.upgrades
        } else {
            &self.data.enemy_upgrades
        }
    }

    pub fn is_worker(&self) -> (r: bool)
        ensures
            r == unit_type::spec_is_worker(self.type_id),
    {
        unit_type::is_worker(self.type_id)
    }

    pub fn is_townhall(&self) -> (r: bool)
        ensures
            r == unit_type::spec_is_townhall(self.type_id),
    {
        unit_type::is_townhall(self.type_id)
    }

    pub fn is_addon(&self) -> (r: bool)
        ensures
            r == unit_type::spec_is_addon(self.type_id),
    {
        unit_type::is_addon(self.type_id)
    }

    pub fn is_melee(&self) -> (r: bool)
        ensures
            r == unit_type::spec_is_melee(self.type_id),
    {
        unit_type::is_melee(self.type_id)
    }

    pub fn is_mineral(&self) -> (r: bool)
        ensures
            r == (self.spec_type_data() is Some && self.spec_type_data()->0.has_minerals),
    {
        match self.type_data() {
            Some(data) => data.has_minerals,
            None => false,
        }
    }

    pub fn is_geyser(&self) -> (r: bool)
        ensures
            r == (self.spec_type_data() is Some && self.spec_type_data()->0.has_vespene),
    {
        match self.type_data() {
            Some(data) => data.has_vespene,
            None => false,
        }
    }

    pub open spec fn spec_is_ready(&self) -> bool {
        self.build_progress == 1000
    }

    /// Detectors: observers, ravens and overseers always; missile turrets
    /// and spore crawlers once ready; photon cannons once ready and powered.
    pub fn is_detector(&self) -> (r: bool)
        ensures
            r == (self.type_id == unit_type::OBSERVER || self.type_id == unit_type::OBSERVER_SIEGE_MODE
                || self.type_id == unit_type::RAVEN || self.type_id == unit_type::OVERSEER
                || self.type_id == unit_type::OVERSEER_SIEGE_MODE || (self.spec_is_ready() && (
            self.type_id == unit_type::MISSILE_TURRET || self.type_id == unit_type::SPORE_CRAWLER || (
            self.type_id == unit_type::PHOTON_CANNON && self.is_powered)))),
    {
        let t = self.type_id;
        t == unit_type::OBSERVER || t == unit_type::OBSERVER_SIEGE_MODE || t == unit_type::RAVEN
            || t == unit_type::OVERSEER || t == unit_type::OVERSEER_SIEGE_MODE || (self.is_ready() && (
        t == unit_type::MISSILE_TURRET || t == unit_type::SPORE_CRAWLER || (t
            == unit_type::PHOTON_CANNON && self.is_powered)))
    }

    /// Ready means fully built.
    pub fn is_ready(&self) -> (r: bool)
        ensures
            r == self.spec_is_ready(),
    {
        self.build_progress == 1000
    }

    pub fn has_addon(&self) -> (r: bool)
        ensures
            r == self.addon_tag is Some,
    {
        self.addon_tag.is_some()
    }

    pub open spec fn spec_has_techlab(&self) -> bool {
        self.addon_tag is Some && self.data.techlab_tags@.contains(self.addon_tag->0)
    }

    /// The add-on's own type may be unknown, so this asks the shared set of
    /// tech lab tags.
    pub fn has_techlab(&self) -> (r: bool)
        ensures
            r == self.spec_has_techlab(),
    {
        match self.addon_tag {
            Some(tag) => fx_contains(&self.data.techlab_tags, &tag),
            None => false,
        }
    }

    pub open spec fn spec_has_reactor(&self) -> bool {
        self.addon_tag is Some && self.data.reactor_tags@.contains(self.addon_tag->0)
    }

    /// The add-on's own type may be unknown, so this asks the shared set of
    /// reactor tags.
    pub fn has_reactor(&self) -> (r: bool)
        ensures
            r == self.spec_has_reactor(),
    {
        match self.addon_tag {
            Some(tag) => fx_contains(&self.data.reactor_tags, &tag),
            None => false,
        }
    }

    pub open spec fn spec_last_health(&self) -> Option<u32> {
        self.data.last_units_health@.get(self.tag)
    }

    /// Whether the unit has fewer hit points than on the previous tick;
    /// false when either value is absent.
    pub fn is_attacked(&self) -> (r: bool)
        ensures
            r == (match (self.spec_hits(), self.spec_last_health()) {
                (Some(h), Some(l)) => h < l,
                _ => false,
            }),
    {
        let hits = match self.hits() {
            Some(hits) => hits,
            None => return false,
        };
        match fx_get(&self.data.last_units_health, &self.tag) {
            Some(last) => hits < *last as u64,
            None => false,
        }
    }

    /// Hit points lost since the previous tick; zero when either value is
    /// absent or the unit gained hit points.
    pub fn damage_taken(&self) -> (r: u32)
        ensures
            r == (match (self.spec_hits(), self.spec_last_health()) {
                (Some(h), Some(l)) => if h < l {
                    (l - h) as u32
                } else {
                    0
                },
                _ => 0,
            }),
    {
        let hits = match self.hits() {
            Some(hits) => hits,
            None => return 0,
        };
        let last = match fx_get(&self.data.last_units_health, &self.tag) {
            Some(last) => *last,
            None => return 0,
        };
        if hits < last as u64 {
            (last as u64 - hits) as u32
        } else {
            0
        }
    }

    /// The abilities the unit can use now, when known.
    pub fn abilities(&self) -> (r: Option<&'a FxHashSet<AbilityId>>)
        ensures
            r is None <==> !self.data.abilities_units@.contains_key(self.tag),
            r is Some ==> *r->0 == self.data.abilities_units@[self.tag],
    {
        fx_get(&self.data.abilities_units, &self.tag)
    }

    pub fn has_ability(&self, ability: AbilityId) -> (r: bool)
        ensures
            r == (self.data.abilities_units@.contains_key(self.tag)
                && self.data.abilities_units@[self.tag]@.contains(ability)),
    {
        match fx_get(&self.data.abilities_units, &self.tag) {
            Some(abilities) => fx_contains(abilities, &ability),
            None => false,
        }
    }

    pub open spec fn spec_race(&self) -> Race {
        match self.spec_type_data() {
            Some(d) => d.race,
            None => Race::Random,
        }
    }

    pub fn race(&self) -> (r: Race)
        ensures
            r == self.spec_race(),
    {
        match self.type_data() {
            Some(data) => data.race,
            None => Race::Random,
        }
    }

    pub fn has_cargo(&self) -> (r: bool)
        ensures
            r == (self.cargo_space_taken is Some && self.cargo_space_taken->0 > 0),
    {
        match self.cargo_space_taken {
            Some(taken) => taken > 0,
            None => false,
        }
    }

    /// Free cargo space; absent when either value is, or when more is taken
    /// than the maximum.
    pub fn cargo_left(&self) -> (r: Option<u32>)
        ensures
            r == (match (self.cargo_space_max, self.cargo_space_taken) {
                (Some(m), Some(t)) => if t <= m {
                    Some((m - t) as u32)
                } else {
                    None
                },
                _ => None,
            }),
    {
        match (self.cargo_space_max, self.cargo_space_taken) {
            (Some(m), Some(t)) => m.checked_sub(t),
            _ => None,
        }
    }

    pub open spec fn spec_footprint_radius(&self) -> Option<u32> {
        match self.spec_type_data() {
            Some(d) => match d.ability {
                Some(a) => match self.data.game_data.abilities@.get(a) {
                    Some(ad) => ad.footprint_radius,
                    None => None,
                },
                None => None,
            },
            None => None,
        }
    }

    /// The radius of the building this type places, in thousandths of a cell.
    pub fn footprint_radius(&self) -> (r: Option<u32>)
        ensures
            r == self.spec_footprint_radius(),
    {
        match self.type_data() {
            Some(data) => match data.ability {
                Some(ability) => match fx_get(&self.data.game_data.abilities, &ability) {
                    Some(ability_data) => ability_data.footprint_radius,
                    None => None,
                },
                None => None,
            },
            None => None,
        }
    }

    /// The side of the building's square footprint, in whole cells; two for
    /// an add-on.
    pub fn building_size(&self) -> (r: Option<usize>)
        ensures
            r == (if unit_type::spec_is_addon(self.type_id) {
                Some(2usize)
            } else {
                match self.spec_footprint_radius() {
                    Some(radius) => Some((radius * 2 / 1000) as usize),
                    None => None,
                }
            }),
    {
        if self.is_addon() {
            Some(2)
        } else {
            match self.footprint_radius() {
                Some(radius) => Some((radius as u64 * 2 / 1000) as usize),
                None => None,
            }
        }
    }

    pub fn cargo_size(&self) -> (r: u32)
        ensures
            r == (match self.spec_type_data() {
                Some(d) => d.cargo_size,
                None => 0,
            }),
    {
        match self.type_data() {
            Some(data) => data.cargo_size,
            None => 0,
        }
    }

    pub fn sight_range(&self) -> (r: u32)
        ensures
            r == (match self.spec_type_data() {
                Some(d) => d.sight_range,
                None => 0,
            }),
    {
        match self.type_data() {
            Some(data) => data.sight_range,
            None => 0,
        }
    }

    pub open spec fn spec_armor(&self) -> i32 {
        match self.spec_type_data() {
            Some(d) => d.armor,
            None => 0,
        }
    }

    /// Base armor of the type.
    pub fn armor(&self) -> (r: i32)
        ensures
            r == self.spec_armor(),
    {
        match self.type_data() {
            Some(data) => data.armor,
            None => 0,
        }
    }

    pub open spec fn spec_is_pos_visible(&self) -> bool {
        self.data.visibility.spec_is_set(self.position)
    }

    fn is_pos_visible(&self) -> (r: bool)
        ensures
            r == self.spec_is_pos_visible(),
    {
        self.data.visibility.is_set(self.position)
    }

    /// Shown as visible, and its cell is in sight.
    pub fn is_visible(&self) -> (r: bool)
        ensures
            r == (self.display_type == DisplayType::Visible && self.spec_is_pos_visible()),
    {
        self.display_type == DisplayType::Visible && self.is_pos_visible()
    }

    /// Remembered from before, and its last known cell is out of sight.
    pub fn is_snapshot(&self) -> (r: bool)
        ensures
            r == (self.display_type == DisplayType::Snapshot && !self.spec_is_pos_visible()),
    {
        self.display_type == DisplayType::Snapshot && !self.is_pos_visible()
    }

    pub fn is_hidden(&self) -> (r: bool)
        ensures
            r == (self.display_type == DisplayType::Hidden),
    {
        self.display_type == DisplayType::Hidden
    }

    pub fn is_placeholder(&self) -> (r: bool)
        ensures
            r == (self.display_type == DisplayType::Placeholder),
    {
        self.display_type == DisplayType::Placeholder
    }

    pub fn is_mine(&self) -> (r: bool)
        ensures
            r == (self.alliance == Alliance::Mine),
    {
        self.alliance == Alliance::Mine
    }

    pub fn is_enemy(&self) -> (r: bool)
        ensures
            r == (self.alliance == Alliance::Enemy),
    {
        self.alliance == Alliance::Enemy
    }

    pub fn is_neutral(&self) -> (r: bool)
        ensures
            r == (self.alliance == Alliance::Neutral),
    {
        self.alliance == Alliance::Neutral
    }

    pub fn is_ally(&self) -> (r: bool)
        ensures
            r == (self.alliance == Alliance::Ally),
    {
        self.alliance == Alliance::Ally
    }

    pub fn is_cloaked(&self) -> (r: bool)
        ensures
            r == (self.cloak == CloakState::Cloaked || self.cloak == CloakState::CloakedDetected
                || self.cloak == CloakState::CloakedAllied),
    {
        self.cloak == CloakState::Cloaked || self.cloak == CloakState::CloakedDetected
            || self.cloak == CloakState::CloakedAllied
    }

    pub fn is_revealed(&self) -> (r: bool)
        ensures
            r == (self.cloak == CloakState::CloakedDetected),
    {
        self.cloak == CloakState::CloakedDetected
    }

    pub fn can_be_attacked(&self) -> (r: bool)
        ensures
            r == (self.cloak == CloakState::NotCloaked || self.cloak == CloakState::CloakedDetected),
    {
        self.cloak == CloakState::NotCloaked || self.cloak == CloakState::CloakedDetected
    }

    /// Supply taken by the type, in thousandths.
    pub fn supply_cost(&self) -> (r: u32)
        ensures
            r == (match self.spec_type_data() {
                Some(d) => d.food_required,
                None => 0,
            }),
    {
        match self.type_data() {
            Some(data) => data.food_required,
            None => 0,
        }
    }

    /// Health over its maximum, in thousandths.
    pub fn health_percentage(&self) -> (r: Option<u64>)
        ensures
            r == spec_per_mille(widen_spec(self.health), widen_spec(self.health_max)),
    {
        per_mille(widen(self.health), widen(self.health_max))
    }

    /// Shield over its maximum, in thousandths.
    pub fn shield_percentage(&self) -> (r: Option<u64>)
        ensures
            r == spec_per_mille(widen_spec(self.shield), widen_spec(self.shield_max)),
    {
        per_mille(widen(self.shield), widen(self.shield_max))
    }

    /// Energy over its maximum, in thousandths.
    pub fn energy_percentage(&self) -> (r: Option<u64>)
        ensures
            r == spec_per_mille(widen_spec(self.energy), widen_spec(self.energy_max)),
    {
        per_mille(widen(self.energy), widen(self.energy_max))
    }

    pub open spec fn spec_hits(&self) -> Option<u64> {
        spec_sum_present(self.health, self.shield)
    }

    pub open spec fn spec_hits_max(&self) -> Option<u64> {
        spec_sum_present(self.health_max, self.shield_max)
    }

    /// Health plus shield when both are present, else whichever is, else
    /// absent.
    pub fn hits(&self) -> (r: Option<u64>)
        ensures
            r == self.spec_hits(),
            r == (match (self.health, self.shield) {
                (Some(h), Some(s)) => Some((h + s) as u64),
                (Some(h), None) => Some(h as u64),
                (None, Some(s)) => Some(s as u64),
                (None, None) => None,
            }),
    {
        sum_present(self.health, self.shield)
    }

    /// Maximum health plus maximum shield, by the same rule as `hits`.
    pub fn hits_max(&self) -> (r: Option<u64>)
        ensures
            r == self.spec_hits_max(),
            r == (match (self.health_max, self.shield_max) {
                (Some(h), Some(s)) => Some((h + s) as u64),
                (Some(h), None) => Some(h as u64),
                (None, Some(s)) => Some(s as u64),
                (None, None) => None,
            }),
    {
        sum_present(self.health_max, self.shield_max)
    }

    /// `hits / hits_max` in thousandths; absent when either is absent or the
    /// maximum is zero.
    pub fn hits_percentage(&self) -> (r: Option<u64>)
        ensures
            r == spec_per_mille(self.spec_hits(), self.spec_hits_max()),
            self.spec_hits_max() is None || self.spec_hits_max() == Some(0u64) ==> r is None,
    {
        per_mille(self.hits(), self.hits_max())
    }

    pub fn has_buff(&self, b: BuffId) -> (r: bool)
        ensures
            r == self.buffs@.contains(b),
    {
        contains_id(&self.buffs, b)
    }

    /// Whether the unit has any of `buffs`.
    pub fn has_any_buff(&self, buffs: &[BuffId]) -> (r: bool)
        ensures
            r == exists|i: int| 0 <= i < buffs@.len() && self.buffs@.contains(#[trigger] buffs@[i]),
    {
        let mut i: usize = 0;
        while i < buffs.len()
            invariant
                i <= buffs@.len(),
                forall|j: int| 0 <= j < i ==> !self.buffs@.contains(#[trigger] buffs@[j]),
            decreases buffs@.len() - i,
        {
            if contains_id(&self.buffs, buffs[i]) {
                return true;
            }
            i = i + 1;
        }
        false
    }

    pub fn is_carrying_minerals(&self) -> (r: bool)
        ensures
            r == (self.buffs@.contains(buff::CARRY_MINERAL_FIELD_MINERALS) || self.buffs@.contains(
                buff::CARRY_HIGH_YIELD_MINERAL_FIELD_MINERALS,
            )),
    {
        self.has_buff(buff::CARRY_MINERAL_FIELD_MINERALS) || self.has_buff(
            buff::CARRY_HIGH_YIELD_MINERAL_FIELD_MINERALS,
        )
    }

    pub fn is_carrying_vespene(&self) -> (r: bool)
        ensures
            r == (self.buffs@.contains(buff::CARRY_HARVESTABLE_VESPENE_GEYSER_GAS) || self.buffs@.contains(
                buff::CARRY_HARVESTABLE_VESPENE_GEYSER_GAS_PROTOSS,
            ) || self.buffs@.contains(buff::CARRY_HARVESTABLE_VESPENE_GEYSER_GAS_ZERG)),
    {
        self.has_buff(buff::CARRY_HARVESTABLE_VESPENE_GEYSER_GAS) || self.has_buff(
            buff::CARRY_HARVESTABLE_VESPENE_GEYSER_GAS_PROTOSS,
        ) || self.has_buff(buff::CARRY_HARVESTABLE_VESPENE_GEYSER_GAS_ZERG)
    }

    pub fn is_carrying_resource(&self) -> (r: bool)
        ensures
            r == (self.buffs@.contains(buff::CARRY_MINERAL_FIELD_MINERALS) || self.buffs@.contains(
                buff::CARRY_HIGH_YIELD_MINERAL_FIELD_MINERALS,
            ) || self.buffs@.contains(buff::CARRY_HARVESTABLE_VESPENE_GEYSER_GAS)
                || self.buffs@.contains(buff::CARRY_HARVESTABLE_VESPENE_GEYSER_GAS_PROTOSS)
                || self.buffs@.contains(buff::CARRY_HARVESTABLE_VESPENE_GEYSER_GAS_ZERG)),
    {
        self.is_carrying_minerals() || self.is_carrying_vespene()
    }

    pub open spec fn spec_attributes(&self) -> Seq<Attribute> {
        match self.spec_type_data() {
            Some(d) => d.attributes@,
            None => Seq::empty(),
        }
    }

    /// The attributes of the type; none when the type is unknown.
    pub fn attributes(&self) -> (r: &'a [Attribute])
        ensures
            r@ == self.spec_attributes(),
    {
        match self.type_data() {
            Some(data) => data.attributes.as_slice(),
            None => &[],
        }
    }

    pub fn has_attribute(&self, attribute: Attribute) -> (r: bool)
        ensures
            r == self.spec_attributes().contains(attribute),
    {
        match self.type_data() {
            Some(data) => contains_attribute(data.attributes.as_slice(), attribute),
            None => false,
        }
    }

    pub fn is_light(&self) -> (r: bool)
        ensures
            r == self.spec_attributes().contains(Attribute::Light),
    {
        self.has_attribute(Attribute::Light)
    }

    pub fn is_armored(&self) -> (r: bool)
        ensures
            r == self.spec_attributes().contains(Attribute::Armored),
    {
        self.has_attribute(Attribute::Armored)
    }

    pub fn is_biological(&self) -> (r: bool)
        ensures
            r == self.spec_attributes().contains(Attribute::Biological),
    {
        self.has_attribute(Attribute::Biological)
    }

    pub fn is_mechanical(&self) -> (r: bool)
        ensures
            r == self.spec_attributes().contains(Attribute::Mechanical),
    {
        self.has_attribute(Attribute::Mechanical)
    }

    pub fn is_robotic(&self) -> (r: bool)
        ensures
            r == self.spec_attributes().contains(Attribute::Robotic),
    {
        self.has_attribute(Attribute::Robotic)
    }

    pub fn is_psionic(&self) -> (r: bool)
        ensures
            r == self.spec_attributes().contains(Attribute::Psionic),
    {
        self.has_attribute(Attribute::Psionic)
    }

    pub fn is_massive(&self) -> (r: bool)
        ensures
            r == self.spec_attributes().contains(Attribute::Massive),
    {
        self.has_attribute(Attribute::Massive)
    }

    pub fn is_structure(&self) -> (r: bool)
        ensures
            r == self.spec_attributes().contains(Attribute::Structure),
    {
        self.has_attribute(Attribute::Structure)
    }

    pub fn is_hover(&self) -> (r: bool)
        ensures
            r == self.spec_attributes().contains(Attribute::Hover),
    {
        self.has_attribute(Attribute::Hover)
    }

    pub fn is_heroic(&self) -> (r: bool)
        ensures
            r == self.spec_attributes().contains(Attribute::Heroic),
    {
        self.has_attribute(Attribute::Heroic)
    }

    pub fn is_summoned(&self) -> (r: bool)
        ensures
            r == self.spec_attributes().contains(Attribute::Summoned),
    {
        self.has_attribute(Attribute::Summoned)
    }
}

pub open spec fn widen_spec(v: Option<u32>) -> Option<u64> {
    match v {
        Some(x) => Some(x as u64),
        None => None,
    }
}

/// Whether `ids` holds `id`.
pub fn contains_id(ids: &Vec<u32>, id: u32) -> (r: bool)
    ensures
        r == ids@.contains(id),
{
    let mut i: usize = 0;
    while i < ids.len()
        invariant
            i <= ids@.len(),
            forall|j: int| 0 <= j < i ==> ids@[j] != id,
        decreases ids@.len() - i,
    {
        if ids[i] == id {
            return true;
        }
        i = i + 1;
    }
    false
}

} // verus!
