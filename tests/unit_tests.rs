use rust_sc2::ability;
use rust_sc2::action::{Commander, Target};
use rust_sc2::buff;
use rust_sc2::combat::{attack_damage, best_bonus};
use rust_sc2::game_data::{
    AbilityData, Attribute, GameData, Race, RaceValues, RuleTables, TargetType, UnitTypeData, UpgradeData,
    Weapon,
};
use rust_sc2::geometry::{Point2, Point3};
use rust_sc2::pixel_map::PixelMap;
use rust_sc2::unit::{Alliance, CloakState, DataForUnit, DisplayType, RawUnit, Unit, UnitOrder};
use rust_sc2::unit_type;
use rust_sc2::upgrade;
use rust_sc2::weapon_stats::CalcTarget;
use rustc_hash::{FxHashMap, FxHashSet};

fn weapon(target: TargetType, damage: u32, attacks: u32, range: u32, speed: u32) -> Weapon {
    Weapon { target, damage, damage_bonus: Vec::new(), attacks, range, speed }
}

fn type_data(race: Race, speed: u32, armor: i32, weapons: Vec<Weapon>, attributes: Vec<Attribute>) -> UnitTypeData {
    UnitTypeData {
        race,
        movement_speed: speed,
        armor,
        weapons,
        attributes,
        has_minerals: false,
        has_vespene: false,
        cargo_size: 1,
        sight_range: 9000,
        food_required: 1000,
        ability: None,
    }
}

fn empty_data() -> DataForUnit {
    DataForUnit {
        game_data: GameData { units: FxHashMap::default(), abilities: FxHashMap::default(), upgrades: FxHashMap::default() },
        tables: RuleTables {
            speed_buffs: FxHashMap::default(),
            speed_upgrades: FxHashMap::default(),
            speed_on_creep: FxHashMap::default(),
            off_creep_speed_upgrades: FxHashMap::default(),
            damage_bonus_per_upgrade: FxHashMap::default(),
            missed_weapons: FxHashMap::default(),
            warpgate_abilities: FxHashMap::default(),
        },
        race_values: RaceValues { gas: unit_type::REFINERY },
        techlab_tags: FxHashSet::default(),
        reactor_tags: FxHashSet::default(),
        max_cooldowns: FxHashMap::default(),
        last_units_health: FxHashMap::default(),
        abilities_units: FxHashMap::default(),
        upgrades: FxHashSet::default(),
        enemy_upgrades: FxHashSet::default(),
        creep: PixelMap::new(0, 0, Vec::new()),
        visibility: PixelMap::new(0, 0, Vec::new()),
        game_step: 8,
    }
}

fn raw(tag: u64, type_id: u32, x: i32, y: i32) -> RawUnit {
    RawUnit {
        display_type: DisplayType::Visible,
        alliance: Alliance::Mine,
        tag,
        type_id,
        owner: 1,
        position: Point3 { x, y, z: 0 },
        facing: 0,
        radius: 500,
        build_progress: 1000,
        cloak: CloakState::NotCloaked,
        buffs: Vec::new(),
        detect_range: 0,
        radar_range: 0,
        is_selected: false,
        is_on_screen: false,
        is_blip: false,
        is_powered: false,
        is_active: false,
        attack_upgrade_level: 0,
        armor_upgrade_level: 0,
        shield_upgrade_level: 0,
        health: Some(45),
        health_max: Some(45),
        shield: None,
        shield_max: None,
        energy: None,
        energy_max: None,
        mineral_contents: None,
        vespene_contents: None,
        is_flying: false,
        is_burrowed: false,
        is_hallucination: false,
        orders: Vec::new(),
        addon_tag: None,
        passengers: Vec::new(),
        cargo_space_taken: None,
        cargo_space_max: None,
        assigned_harvesters: None,
        ideal_harvesters: None,
        weapon_cooldown: None,
        engaged_target_tag: None,
        buff_duration_remain: None,
        buff_duration_max: None,
        rally_targets: Vec::new(),
    }
}

#[test]
fn hits_sums_health_and_shield() {
    let data = empty_data();
    let mut r = raw(1, unit_type::ZEALOT, 0, 0);
    r.health = Some(100);
    r.shield = Some(50);
    r.health_max = Some(100);
    r.shield_max = Some(50);
    let u = Unit::from_raw(&data, r);
    assert_eq!(u.hits(), Some(150));
    assert_eq!(u.hits_max(), Some(150));
    assert_eq!(u.hits_percentage(), Some(1000));
}

#[test]
fn hits_takes_whichever_is_present() {
    let data = empty_data();
    let mut r = raw(1, unit_type::ZEALOT, 0, 0);
    r.health = None;
    r.shield = Some(20);
    r.health_max = None;
    r.shield_max = Some(80);
    let u = Unit::from_raw(&data, r);
    assert_eq!(u.hits(), Some(20));
    assert_eq!(u.hits_max(), Some(80));
    assert_eq!(u.hits_percentage(), Some(250));
    let mut r = raw(2, unit_type::ZEALOT, 0, 0);
    r.health = None;
    r.health_max = None;
    let u = Unit::from_raw(&data, r);
    assert_eq!(u.hits(), None);
    assert_eq!(u.hits_max(), None);
    assert_eq!(u.hits_percentage(), None);
}

#[test]
fn hits_percentage_absent_for_zero_max() {
    let data = empty_data();
    let mut r = raw(1, unit_type::ZEALOT, 0, 0);
    r.health = Some(0);
    r.health_max = Some(0);
    let u = Unit::from_raw(&data, r);
    assert_eq!(u.hits(), Some(0));
    assert_eq!(u.hits_percentage(), None);
    assert_eq!(u.health_percentage(), None);
    assert_eq!(u.shield_percentage(), None);
}

#[test]
fn shield_absorbs_two_attacks() {
    assert_eq!(attack_damage(10, 2, Some(30), Some(100), 0, 0), 20);
}

#[test]
fn shield_exhausted_spills_to_health() {
    // three attacks take exactly the whole shield
    assert_eq!(attack_damage(10, 3, Some(30), Some(100), 0, 0), 30);
    // a fourth attack finds the shield gone and lands on health
    assert_eq!(attack_damage(10, 4, Some(30), Some(100), 0, 0), 40);
    // the overshoot of the breaking attack carries over into health, once
    assert_eq!(attack_damage(10, 4, Some(25), Some(100), 0, 0), 40);
    assert_eq!(attack_damage(10, 3, Some(15), Some(100), 0, 0), 30);
    assert_eq!(attack_damage(10, 2, Some(15), Some(100), 0, 0), 20);
    // the carried overshoot counts as it is; later attacks meet health armor
    assert_eq!(attack_damage(10, 3, Some(15), Some(100), 0, 2), 15 + 5 + 8);
    // without health to spill into, only the shield counts
    assert_eq!(attack_damage(10, 4, Some(30), None, 0, 0), 30);
}

#[test]
fn armor_never_below_one() {
    assert_eq!(attack_damage(2, 1, None, Some(100), 0, 5), 1);
    assert_eq!(attack_damage(2, 3, None, Some(100), 0, 5), 3);
    assert_eq!(attack_damage(2, 2, Some(40), None, 7, 0), 2);
    assert_eq!(attack_damage(12, 2, None, Some(100), 0, 2), 20);
}

#[test]
fn health_attacks_stop_when_exhausted() {
    assert_eq!(attack_damage(10, 5, None, Some(15), 0, 0), 20);
    assert_eq!(attack_damage(10, 5, None, Some(0), 0, 0), 0);
}

#[test]
fn bonus_is_max_not_sum() {
    let bonuses = vec![(Attribute::Light, 5), (Attribute::Armored, 10)];
    let attributes = vec![Attribute::Light, Attribute::Armored];
    assert_eq!(best_bonus(&bonuses, &attributes, 0, &Vec::new(), 0, 0), Some(10));
    let attributes = vec![Attribute::Light];
    assert_eq!(best_bonus(&bonuses, &attributes, 0, &Vec::new(), 0, 0), Some(5));
    let attributes = vec![Attribute::Biological];
    assert_eq!(best_bonus(&bonuses, &attributes, 0, &Vec::new(), 0, 0), None);
    // per-level bonus and flat extras raise each candidate separately
    let attributes = vec![Attribute::Light, Attribute::Armored];
    let per = vec![(Attribute::Light, 4)];
    assert_eq!(best_bonus(&bonuses, &attributes, 2, &per, 0, 0), Some(13));
    assert_eq!(best_bonus(&bonuses, &attributes, 0, &Vec::new(), 0, 6), Some(16));
}

#[test]
fn command_batching_dedups_repeats() {
    let data = empty_data();
    let mut r = raw(7, unit_type::SCV, 0, 0);
    let pos = Point2::new(5000, 5000);
    r.orders = vec![UnitOrder { ability: ability::MOVE_MOVE, target: Target::Pos(pos), progress: 0 }];
    let u = Unit::from_raw(&data, r);
    let mut commander = Commander::new();
    u.move_to(&mut commander, Target::Pos(pos), false);
    assert!(commander.commands.is_empty());
    let other = Point2::new(9000, 1000);
    u.move_to(&mut commander, Target::Pos(other), false);
    assert_eq!(commander.commands.len(), 1);
    assert_eq!(commander.commands[0].ability, ability::MOVE_MOVE);
    assert_eq!(commander.commands[0].target, Target::Pos(other));
    assert!(!commander.commands[0].queue);
    assert_eq!(commander.commands[0].tags, vec![7]);
    u.move_to(&mut commander, Target::Pos(pos), true);
    assert_eq!(commander.commands.len(), 2);
    assert!(commander.commands[1].queue);
    assert_eq!(commander.commands[1].tags, vec![7]);
}

#[test]
fn command_batching_groups_units() {
    let data = empty_data();
    let a = Unit::from_raw(&data, raw(1, unit_type::SCV, 0, 0));
    let b = Unit::from_raw(&data, raw(2, unit_type::SCV, 0, 0));
    let mut commander = Commander::new();
    a.gather(&mut commander, 99, false);
    b.gather(&mut commander, 99, false);
    a.stop(&mut commander, false);
    assert_eq!(commander.commands.len(), 2);
    assert_eq!(commander.commands[0].ability, ability::HARVEST_GATHER);
    assert_eq!(commander.commands[0].target, Target::Tag(99));
    assert_eq!(commander.commands[0].tags, vec![1, 2]);
    assert_eq!(commander.commands[1].ability, ability::STOP);
    let drained = commander.take_commands();
    assert_eq!(drained.len(), 2);
    assert!(commander.commands.is_empty());
}

#[test]
fn command_spam_allowed_repeats() {
    let data = empty_data();
    let mut r = raw(3, unit_type::SCV, 0, 0);
    r.orders = vec![UnitOrder { ability: ability::STOP, target: Target::Empty, progress: 0 }];
    let mut u = Unit::from_raw(&data, r);
    u.allow_spam = true;
    let mut commander = Commander::new();
    u.stop(&mut commander, false);
    assert_eq!(commander.commands.len(), 1);
    assert_eq!(commander.commands[0].tags, vec![3]);
}

#[test]
fn speed_buff_skips_creep_bonus() {
    let mut data = empty_data();
    data.game_data.units.insert(unit_type::HELLION, type_data(Race::Terran, 4000, 0, Vec::new(), Vec::new()));
    data.tables.speed_on_creep.insert(unit_type::HELLION, 1300);
    data.creep = PixelMap::new(2, 2, vec![true, true, true, true]);
    let mut r = raw(1, unit_type::HELLION, 500, 500);
    r.buffs = vec![buff::MEDIVAC_SPEED_BOOST];
    let u = Unit::from_raw(&data, r);
    assert_eq!(u.real_speed(), 6800);
    let u = Unit::from_raw(&data, raw(2, unit_type::HELLION, 500, 500));
    assert_eq!(u.real_speed(), 5200);
    let u = Unit::from_raw(&data, raw(3, unit_type::HELLION, 5000, 5000));
    assert_eq!(u.real_speed(), 4000);
}

#[test]
fn speed_buffs_and_upgrades_compound() {
    let mut data = empty_data();
    data.game_data.units.insert(unit_type::ZERGLING, type_data(Race::Zerg, 4000, 0, Vec::new(), Vec::new()));
    data.game_data.units.insert(unit_type::ULTRALISK, type_data(Race::Zerg, 4000, 0, Vec::new(), Vec::new()));
    data.tables.speed_buffs.insert(buff::STIMPACK, 1500);
    data.tables.speed_upgrades.insert(unit_type::ZERGLING, (66, 1600));
    data.upgrades.insert(66);
    let mut r = raw(1, unit_type::ZERGLING, 0, 0);
    r.buffs = vec![buff::STIMPACK];
    let u = Unit::from_raw(&data, r);
    assert_eq!(u.real_speed(), 9600);
    assert_eq!(u.distance_per_step(), 9600 * 8 * 10 / 224);
    let mut r = raw(2, unit_type::ULTRALISK, 0, 0);
    r.buffs = vec![buff::MEDIVAC_SPEED_BOOST];
    let u = Unit::from_raw(&data, r);
    assert_eq!(u.real_speed(), 4000);
}

#[test]
fn void_ray_charge_slows() {
    let mut data = empty_data();
    data.game_data.units.insert(unit_type::PHOENIX, type_data(Race::Protoss, 4000, 0, Vec::new(), Vec::new()));
    data.tables.speed_buffs.insert(buff::STIMPACK, 2000);
    let mut r = raw(1, unit_type::PHOENIX, 0, 0);
    r.buffs = vec![buff::STIMPACK, buff::VOID_RAY_SWARM_DAMAGE_BOOST];
    let u = Unit::from_raw(&data, r);
    assert_eq!(u.real_speed(), 3000);
    // with both overriding buffs the medivac boost wins
    let mut r = raw(2, unit_type::PHOENIX, 0, 0);
    r.buffs = vec![buff::VOID_RAY_SWARM_DAMAGE_BOOST, buff::MEDIVAC_SPEED_BOOST];
    let u = Unit::from_raw(&data, r);
    assert_eq!(u.real_speed(), 6800);
}

#[test]
fn speed_override_ignores_earlier_buffs() {
    let mut data = empty_data();
    data.game_data.units.insert(unit_type::HELLION, type_data(Race::Terran, 1000, 0, Vec::new(), Vec::new()));
    data.tables.speed_buffs.insert(buff::STIMPACK, 2000);
    let mut r = raw(1, unit_type::HELLION, 0, 0);
    r.buffs = vec![buff::STIMPACK, buff::MEDIVAC_SPEED_BOOST];
    let u = Unit::from_raw(&data, r);
    assert_eq!(u.real_speed(), 1700);
    let mut r = raw(2, unit_type::HELLION, 0, 0);
    r.buffs = vec![buff::STIMPACK];
    let u = Unit::from_raw(&data, r);
    assert_eq!(u.real_speed(), 2000);
}

#[test]
fn off_creep_upgrade_only_off_creep() {
    let mut data = empty_data();
    data.game_data.units.insert(unit_type::ZERGLING, type_data(Race::Zerg, 1000, 0, Vec::new(), Vec::new()));
    data.tables.off_creep_speed_upgrades.insert(unit_type::ZERGLING, (66, 2000));
    data.upgrades.insert(66);
    data.creep = PixelMap::new(1, 1, vec![true]);
    let on_creep = Unit::from_raw(&data, raw(1, unit_type::ZERGLING, 500, 500));
    assert_eq!(on_creep.real_speed(), 1000);
    let off_creep = Unit::from_raw(&data, raw(2, unit_type::ZERGLING, 5000, 5000));
    assert_eq!(off_creep.real_speed(), 2000);
}

#[test]
fn attacked_needs_both_values() {
    let mut data = empty_data();
    data.last_units_health.insert(1, 50);
    let mut r = raw(1, unit_type::ZEALOT, 0, 0);
    r.health = None;
    r.shield = None;
    let u = Unit::from_raw(&data, r);
    assert!(!u.is_attacked());
    assert_eq!(u.damage_taken(), 0);
}

#[test]
fn attribute_predicates() {
    let mut data = empty_data();
    data.game_data.units.insert(
        unit_type::ZEALOT,
        type_data(Race::Protoss, 3150, 1, Vec::new(), vec![Attribute::Light, Attribute::Biological]),
    );
    let u = Unit::from_raw(&data, raw(1, unit_type::ZEALOT, 0, 0));
    assert!(u.is_light());
    assert!(u.is_biological());
    assert!(!u.is_armored());
    assert!(!u.is_mechanical());
    assert!(!u.is_robotic());
    assert!(!u.is_psionic());
    assert!(!u.is_massive());
    assert!(!u.is_structure());
    assert!(!u.is_hover());
    assert!(!u.is_heroic());
    assert!(!u.is_summoned());
}

fn tank_data() -> DataForUnit {
    let mut data = empty_data();
    data.game_data.units.insert(
        unit_type::SIEGE_TANK_SIEGED,
        type_data(Race::Terran, 0, 1, vec![weapon(TargetType::Ground, 40, 1, 13000, 2140)], vec![Attribute::Armored]),
    );
    data.game_data.units.insert(unit_type::ZEALOT, type_data(Race::Protoss, 3150, 1, Vec::new(), vec![Attribute::Light]));
    data
}

#[test]
fn sieged_tank_minimum_range() {
    let data = tank_data();
    let tank = Unit::from_raw(&data, raw(1, unit_type::SIEGE_TANK_SIEGED, 10000, 10000));
    let close = Unit::from_raw(&data, raw(2, unit_type::ZEALOT, 11500, 10000));
    assert!(!tank.in_range(&close, 0));
    assert!(!tank.in_real_range(&close, 0));
    let far = Unit::from_raw(&data, raw(3, unit_type::ZEALOT, 20000, 10000));
    assert!(tank.in_range(&far, 0));
    assert!(tank.in_real_range(&far, 0));
    assert!(far.in_range_of(&tank, 0));
    let too_far = Unit::from_raw(&data, raw(4, unit_type::ZEALOT, 30000, 10000));
    assert!(!tank.in_range(&too_far, 0));
    assert!(tank.in_range(&too_far, 6000));
}

#[test]
fn ground_weapon_cannot_hit_air() {
    let data = tank_data();
    let tank = Unit::from_raw(&data, raw(1, unit_type::SIEGE_TANK_SIEGED, 10000, 10000));
    let mut r = raw(2, unit_type::ZEALOT, 15000, 10000);
    r.is_flying = true;
    let flyer = Unit::from_raw(&data, r);
    assert!(!tank.in_range(&flyer, 0));
    assert!(!tank.can_attack_unit(&flyer));
    assert_eq!(tank.range_vs(&flyer), 0);
    assert_eq!(tank.ground_range(), 13000);
    assert_eq!(tank.air_range(), 0);
    assert!(tank.can_attack_ground());
    assert!(!tank.can_attack_air());
    assert_eq!(tank.weapon_target(), Some(TargetType::Ground));
}

#[test]
fn decoded_fields_read_back() {
    let data = empty_data();
    let mut r = raw(42, unit_type::OBSERVER, 1234, -567);
    r.position.z = 89;
    r.health = Some(40);
    r.shield = Some(20);
    r.energy = None;
    r.addon_tag = Some(9);
    r.detect_range = 3000;
    let u = Unit::from_raw(&data, r);
    assert_eq!(u.tag, 42);
    assert_eq!(u.type_id, unit_type::OBSERVER);
    assert_eq!(u.position, Point2::new(1234, -567));
    assert_eq!(u.position3d, Point3 { x: 1234, y: -567, z: 89 });
    assert_eq!(u.health, Some(40));
    assert_eq!(u.shield, Some(20));
    assert_eq!(u.energy, None);
    assert_eq!(u.addon_tag, Some(9));
    assert_eq!(u.detect_range, 11000);
    assert!(!u.allow_spam);
}

fn marine_data() -> DataForUnit {
    let mut data = empty_data();
    data.game_data.units.insert(
        48,
        type_data(Race::Terran, 3150, 0, vec![weapon(TargetType::Any, 6, 1, 5000, 610)], vec![Attribute::Light, Attribute::Biological]),
    );
    let mut stalker_weapon = weapon(TargetType::Any, 13, 1, 6000, 1340);
    stalker_weapon.damage_bonus = vec![(Attribute::Armored, 5)];
    data.game_data.units.insert(
        74,
        type_data(Race::Protoss, 4130, 1, vec![stalker_weapon], vec![Attribute::Armored, Attribute::Mechanical]),
    );
    data
}

#[test]
fn weapon_stats_against_shielded_unit() {
    let data = marine_data();
    let marine = Unit::from_raw(&data, raw(1, 48, 0, 0));
    let mut r = raw(2, 74, 3000, 0);
    r.alliance = Alliance::Enemy;
    r.health = Some(80);
    r.shield = Some(80);
    let stalker = Unit::from_raw(&data, r);
    // 6 damage against 0 shield armor: one hit on the shield
    assert_eq!(marine.real_weapon_vs(&stalker), (6 * 1_000_000 / 610, 5000));
    // the stalker's bonus against armored counts against a profile
    let attributes = [Attribute::Armored];
    assert_eq!(stalker.real_weapon(&attributes), (18 * 1_000_000 / 1340, 6000));
    assert_eq!(stalker.real_ground_weapon(&[]), (13 * 1_000_000 / 1340, 6000));
}

#[test]
fn weapon_stats_with_stim_and_armor() {
    let data = marine_data();
    let mut r = raw(1, 48, 0, 0);
    r.buffs = vec![buff::STIMPACK];
    let marine = Unit::from_raw(&data, r);
    let mut r = raw(2, 74, 3000, 0);
    r.alliance = Alliance::Enemy;
    r.shield = None;
    r.health = Some(80);
    let stalker = Unit::from_raw(&data, r);
    // armor 1: five per hit; stim shortens the interval to two thirds
    assert_eq!(marine.calculate_weapon_stats(CalcTarget::Unit(&stalker)), (5 * 1_000_000 * 3 / (610 * 2), 5000));
}

#[test]
fn weapon_stats_without_weapons() {
    let data = marine_data();
    let changeling = Unit::from_raw(&data, raw(1, unit_type::CHANGELING, 0, 0));
    assert_eq!(changeling.real_weapon(&[]), (0, 0));
    assert!(!changeling.can_attack());
    assert_eq!(changeling.weapon_target(), None);
}

#[test]
fn missing_weapons_come_from_table() {
    let mut data = empty_data();
    data.tables.missed_weapons.insert(unit_type::BANELING, vec![weapon(TargetType::Ground, 16, 1, 250, 0)]);
    let cocoon = Unit::from_raw(&data, raw(1, unit_type::BANELING_COCOON, 0, 0));
    assert_eq!(cocoon.ground_range(), 250);
    assert_eq!(cocoon.ground_dps(), 0);
    assert_eq!(cocoon.real_weapon(&[]), (0, 250));
}

#[test]
fn range_upgrades_extend_real_range() {
    let mut data = empty_data();
    data.game_data.units.insert(
        unit_type::HYDRALISK,
        type_data(Race::Zerg, 3150, 0, vec![weapon(TargetType::Any, 12, 1, 5000, 590)], Vec::new()),
    );
    data.upgrades.insert(upgrade::EVOLVE_GROOVED_SPINES);
    let hydra = Unit::from_raw(&data, raw(1, unit_type::HYDRALISK, 0, 0));
    assert_eq!(hydra.ground_range(), 5000);
    assert_eq!(hydra.real_ground_range(), 6000);
    assert_eq!(hydra.real_air_range(), 6000);
    assert_eq!(hydra.real_weapon(&[]).1, 6000);
    assert!(hydra.can_attack_both());
    assert_eq!(hydra.weapon_target(), Some(TargetType::Any));
}

#[test]
fn addon_and_history_lookups() {
    let mut data = empty_data();
    data.techlab_tags.insert(500);
    data.reactor_tags.insert(600);
    data.last_units_health.insert(1, 50);
    let mut abilities = FxHashSet::default();
    abilities.insert(ability::STOP);
    data.abilities_units.insert(1, abilities);
    let mut r = raw(1, 21, 0, 0);
    r.addon_tag = Some(500);
    r.health = Some(30);
    r.shield = None;
    let u = Unit::from_raw(&data, r);
    assert!(u.has_addon());
    assert!(u.has_techlab());
    assert!(!u.has_reactor());
    assert!(u.is_attacked());
    assert_eq!(u.damage_taken(), 20);
    assert!(u.has_ability(ability::STOP));
    assert!(!u.has_ability(ability::ATTACK));
    let mut r = raw(2, 21, 0, 0);
    r.addon_tag = Some(600);
    r.orders = vec![UnitOrder { ability: 560, target: Target::Empty, progress: 100 }];
    let u = Unit::from_raw(&data, r);
    assert!(u.has_reactor());
    assert!(u.is_unused());
    assert!(!u.is_idle());
    assert!(!u.is_attacked());
    assert_eq!(u.damage_taken(), 0);
}

#[test]
fn almost_idle_by_progress() {
    let data = empty_data();
    let mut r = raw(1, 21, 0, 0);
    r.orders = vec![UnitOrder { ability: 560, target: Target::Empty, progress: 950 }];
    let u = Unit::from_raw(&data, r);
    assert!(u.is_almost_idle());
    assert!(!u.is_idle());
    assert_eq!(u.ordered_ability(), Some(560));
    assert!(u.is_using(560));
    assert!(u.is_using_any(&[1, 560]));
    assert_eq!(u.target(), Target::Empty);
    let mut r = raw(2, 21, 0, 0);
    r.orders = vec![UnitOrder { ability: 560, target: Target::Tag(5), progress: 949 }];
    let u = Unit::from_raw(&data, r);
    assert!(!u.is_almost_idle());
    assert_eq!(u.target_tag(), Some(5));
    assert_eq!(u.target_pos(), None);
}

#[test]
fn detector_rules() {
    let data = empty_data();
    let observer = Unit::from_raw(&data, raw(1, unit_type::OBSERVER, 0, 0));
    assert!(observer.is_detector());
    let mut r = raw(2, unit_type::PHOTON_CANNON, 0, 0);
    r.is_powered = false;
    assert!(!Unit::from_raw(&data, r).is_detector());
    let mut r = raw(3, unit_type::PHOTON_CANNON, 0, 0);
    r.is_powered = true;
    assert!(Unit::from_raw(&data, r).is_detector());
    let mut r = raw(4, unit_type::MISSILE_TURRET, 0, 0);
    r.build_progress = 500;
    assert!(!Unit::from_raw(&data, r).is_detector());
}

#[test]
fn visibility_uses_grid() {
    let mut data = empty_data();
    data.visibility = PixelMap::new(2, 1, vec![true, false]);
    let seen = Unit::from_raw(&data, raw(1, unit_type::ZEALOT, 500, 500));
    assert!(seen.is_visible());
    let mut r = raw(2, unit_type::ZEALOT, 1500, 500);
    r.display_type = DisplayType::Snapshot;
    let remembered = Unit::from_raw(&data, r);
    assert!(remembered.is_snapshot());
    assert!(!remembered.is_visible());
}

#[test]
fn building_commands_use_game_data() {
    let mut data = empty_data();
    let mut depot = type_data(Race::Terran, 0, 1, Vec::new(), vec![Attribute::Structure]);
    depot.ability = Some(319);
    data.game_data.units.insert(19, depot);
    data.game_data.abilities.insert(319, AbilityData { footprint_radius: Some(1000) });
    data.game_data.upgrades.insert(upgrade::HI_SEC_AUTO_TRACKING, UpgradeData { ability: 650 });
    let scv = Unit::from_raw(&data, raw(1, unit_type::SCV, 0, 0));
    let mut commander = Commander::new();
    scv.build(&mut commander, 19, Point2::new(3000, 4000), false);
    scv.build(&mut commander, 12345, Point2::new(3000, 4000), false);
    scv.research(&mut commander, upgrade::TERRAN_VEHICLE_AND_SHIP_ARMORS_LEVEL2, false);
    scv.research(&mut commander, upgrade::HI_SEC_AUTO_TRACKING, true);
    assert_eq!(commander.commands.len(), 3);
    assert_eq!(commander.commands[0].ability, 319);
    assert_eq!(commander.commands[0].target, Target::Pos(Point2::new(3000, 4000)));
    assert_eq!(commander.commands[1].ability, ability::RESEARCH_TERRAN_VEHICLE_AND_SHIP_PLATING);
    assert_eq!(commander.commands[2].ability, 650);
    assert!(commander.commands[2].queue);
    let depot_unit = Unit::from_raw(&data, raw(2, 19, 0, 0));
    assert_eq!(depot_unit.footprint_radius(), Some(1000));
    assert_eq!(depot_unit.building_size(), Some(2));
    assert!(depot_unit.has_attribute(Attribute::Structure));
}

#[test]
fn guardian_shield_against_ranged_attacks() {
    let mut data = marine_data();
    data.game_data.units.insert(unit_type::ZEALOT, type_data(Race::Protoss, 3150, 1, Vec::new(), vec![Attribute::Light]));
    let marine = Unit::from_raw(&data, raw(1, 48, 0, 0));
    let mut r = raw(2, unit_type::ZEALOT, 3000, 0);
    r.alliance = Alliance::Enemy;
    r.shield = None;
    r.health = Some(100);
    r.buffs = vec![buff::GUARDIAN_SHIELD];
    let zealot = Unit::from_raw(&data, r);
    // armor 1 plus 2 from the guardian shield: 3 damage per hit
    assert_eq!(marine.real_weapon_vs(&zealot), (3 * 1_000_000 / 610, 5000));
}

#[test]
fn percentages_round_down() {
    let data = empty_data();
    let mut r = raw(1, unit_type::ZEALOT, 0, 0);
    r.health = Some(30);
    r.health_max = Some(45);
    r.energy = Some(1);
    r.energy_max = Some(3);
    r.shield = Some(10);
    r.shield_max = None;
    let u = Unit::from_raw(&data, r);
    assert_eq!(u.health_percentage(), Some(666));
    assert_eq!(u.energy_percentage(), Some(333));
    assert_eq!(u.shield_percentage(), None);
    assert_eq!(u.hits(), Some(40));
    assert_eq!(u.hits_max(), Some(45));
    assert_eq!(u.hits_percentage(), Some(888));
}

#[test]
fn cloak_and_alliance_predicates() {
    let data = empty_data();
    let mut r = raw(1, unit_type::ZEALOT, 0, 0);
    r.cloak = CloakState::CloakedDetected;
    r.alliance = Alliance::Enemy;
    let u = Unit::from_raw(&data, r);
    assert!(u.is_cloaked());
    assert!(u.is_revealed());
    assert!(u.can_be_attacked());
    assert!(u.is_enemy());
    assert!(!u.is_mine());
    let mut r = raw(2, unit_type::ZEALOT, 0, 0);
    r.cloak = CloakState::Cloaked;
    r.alliance = Alliance::Neutral;
    let u = Unit::from_raw(&data, r);
    assert!(u.is_cloaked());
    assert!(!u.is_revealed());
    assert!(!u.can_be_attacked());
    assert!(u.is_neutral());
    let mut r = raw(3, unit_type::ZEALOT, 0, 0);
    r.cloak = CloakState::CloakedUnknown;
    r.display_type = DisplayType::Hidden;
    let u = Unit::from_raw(&data, r);
    assert!(!u.is_cloaked());
    assert!(!u.can_be_attacked());
    assert!(u.is_hidden());
    assert!(!u.is_placeholder());
}

#[test]
fn cargo_and_carrying() {
    let data = empty_data();
    let mut r = raw(1, unit_type::SCV, 0, 0);
    r.cargo_space_taken = Some(3);
    r.cargo_space_max = Some(8);
    r.buffs = vec![buff::CARRY_HARVESTABLE_VESPENE_GEYSER_GAS_ZERG];
    let u = Unit::from_raw(&data, r);
    assert!(u.has_cargo());
    assert_eq!(u.cargo_left(), Some(5));
    assert!(u.is_carrying_vespene());
    assert!(!u.is_carrying_minerals());
    assert!(u.is_carrying_resource());
    assert!(u.has_any_buff(&[buff::STIMPACK, buff::CARRY_HARVESTABLE_VESPENE_GEYSER_GAS_ZERG]));
    assert!(!u.has_any_buff(&[buff::STIMPACK]));
    assert!(u.is_worker());
    assert!(u.is_melee());
    let mut r = raw(2, unit_type::SCV, 0, 0);
    r.cargo_space_taken = Some(0);
    r.cargo_space_max = None;
    let u = Unit::from_raw(&data, r);
    assert!(!u.has_cargo());
    assert_eq!(u.cargo_left(), None);
}

#[test]
fn order_classification() {
    let data = empty_data();
    let mut r = raw(1, unit_type::SCV, 0, 0);
    r.orders = vec![UnitOrder { ability: ability::ATTACK_ATTACK, target: Target::Tag(4), progress: 0 }];
    let u = Unit::from_raw(&data, r);
    assert!(u.is_attacking());
    assert!(!u.is_moving());
    let mut r = raw(2, unit_type::SCV, 0, 0);
    r.orders = vec![UnitOrder { ability: ability::HARVEST_RETURN, target: Target::Empty, progress: 0 }];
    let u = Unit::from_raw(&data, r);
    assert!(u.is_returning());
    assert!(u.is_collecting());
    assert!(!u.is_gathering());
    let mut r = raw(3, unit_type::SCV, 0, 0);
    r.orders = vec![UnitOrder { ability: 319, target: Target::Pos(Point2::new(1, 2)), progress: 0 }];
    let u = Unit::from_raw(&data, r);
    assert!(u.is_constructing());
    assert_eq!(u.target_pos(), Some(Point2::new(1, 2)));
    let mut r = raw(4, 21, 0, 0);
    r.orders = vec![UnitOrder { ability: ability::BUILD_REACTOR_BARRACKS, target: Target::Empty, progress: 0 }];
    let u = Unit::from_raw(&data, r);
    assert!(u.is_making_addon());
    assert!(u.is_making_reactor());
    assert!(!u.is_making_techlab());
    let mut r = raw(5, unit_type::SCV, 0, 0);
    r.orders = vec![UnitOrder { ability: ability::EFFECT_REPAIR_SCV, target: Target::Tag(9), progress: 0 }];
    let u = Unit::from_raw(&data, r);
    assert!(u.is_repairing());
    assert!(!u.is_patrolling());
}

#[test]
fn cancel_queue_and_warp_in() {
    let mut data = empty_data();
    data.tables.warpgate_abilities.insert(unit_type::ZEALOT, 1413);
    let mut refinery = type_data(Race::Terran, 0, 1, Vec::new(), vec![Attribute::Structure]);
    refinery.ability = Some(320);
    data.game_data.units.insert(unit_type::REFINERY, refinery);
    let cc = Unit::from_raw(&data, raw(1, unit_type::COMMAND_CENTER, 0, 0));
    let gate = Unit::from_raw(&data, raw(2, 133, 0, 0));
    let scv = Unit::from_raw(&data, raw(3, unit_type::SCV, 0, 0));
    let mut commander = Commander::new();
    cc.cancel_queue(&mut commander, false);
    gate.cancel_queue(&mut commander, false);
    gate.warp_in(&mut commander, unit_type::ZEALOT, Point2::new(1000, 1000));
    gate.warp_in(&mut commander, unit_type::SCV, Point2::new(1000, 1000));
    scv.build_gas(&mut commander, 77, false);
    assert_eq!(commander.commands.len(), 4);
    assert_eq!(commander.commands[0].ability, ability::CANCEL_QUEUE_CANCEL_TO_SELECTION);
    assert_eq!(commander.commands[1].ability, ability::CANCEL_QUEUE5);
    assert_eq!(commander.commands[2].ability, 1413);
    assert_eq!(commander.commands[2].target, Target::Pos(Point2::new(1000, 1000)));
    assert_eq!(commander.commands[3].ability, 320);
    assert_eq!(commander.commands[3].target, Target::Tag(77));
}

#[test]
fn colossus_hit_by_any_weapon() {
    let mut data = empty_data();
    let mut w = weapon(TargetType::Air, 10, 2, 9000, 1000);
    w.damage_bonus = vec![(Attribute::Armored, 4)];
    data.game_data.units.insert(
        unit_type::PHOENIX,
        type_data(Race::Protoss, 5950, 0, vec![w], vec![Attribute::Light, Attribute::Mechanical]),
    );
    data.game_data.units.insert(
        unit_type::COLOSSUS,
        type_data(Race::Protoss, 3150, 1, Vec::new(), vec![Attribute::Armored, Attribute::Massive]),
    );
    let phoenix = Unit::from_raw(&data, raw(1, unit_type::PHOENIX, 0, 0));
    let mut r = raw(2, unit_type::COLOSSUS, 5000, 0);
    r.alliance = Alliance::Enemy;
    r.health = Some(200);
    r.shield = Some(150);
    let colossus = Unit::from_raw(&data, r);
    assert!(phoenix.can_attack_unit(&colossus));
    assert_eq!(phoenix.range_vs(&colossus), 9000);
    assert_eq!(phoenix.dps_vs(&colossus), 20 * 1_000_000 / 1000);
    assert!(phoenix.in_range(&colossus, 0));
    assert_eq!(phoenix.damage_bonus(), Some((Attribute::Armored, 4)));
    // 14 per hit on the shield, twice
    assert_eq!(phoenix.real_weapon_vs(&colossus), (28 * 1_000_000 / 1000, 9000));
    assert_eq!(phoenix.air_dps(), 20_000);
    assert_eq!(phoenix.ground_dps(), 0);
}
