use vstd::prelude::*;
use crate::buff;
use crate::collections::{fx_contains, fx_get};
use crate::combat::{
    attack_damage, best_bonus, hit_damage, lemma_each_attack_counts, lemma_shield_drains_first, spec_attack_damage,
    spec_best_bonus, MAX_DAMAGE,
};
use crate::game_data::{
    spec_upgrade_damage_for, upgrade_damage_for, Attribute, Race, TargetType, UpgradeDamage, Weapon,
};
use crate::stats::{spec_excluded_for, spec_range_bonus};
use crate::unit::{Alliance, Unit};
use crate::unit_type;
use crate::upgrade;

verus! {

broadcast use vstd::std_specs::hash::group_hash_axioms;

/// What a weapon is resolved against: a concrete unit, or a profile of a
/// target kind and its attributes when no unit is at hand.
pub enum CalcTarget<'t, 'd> {
    Unit(&'t Unit<'d>),
    Abstract(TargetType, &'t [Attribute]),
}

/// What a concrete defender opposes to each attack: its shield and health
/// (when known), its effective armor and shield armor, and whether it
/// carries a guardian shield.
#[derive(Clone, Copy, PartialEq, Eq, Structural, Debug)]
pub struct Defender {
    pub shield: Option<u32>,
    pub health: Option<u32>,
    pub armor: i64,
    pub shield_armor: i64,
    pub guardian_shield: bool,
}

impl Defender {
    pub open spec fn in_bounds(&self) -> bool {
        -0x1_0000_0000_0000 <= self.armor <= 0x1_0000_0000_0000 && -0x1_0000_0000_0000 <= self.shield_armor
            <= 0x1_0000_0000_0000
    }
}

/// Everything besides the weapon itself that its damage depends on: the
/// attacker's attack-upgrade level, the flat extras on light and on armored
/// targets, the attacker's range bonus, and the defender when concrete.
#[derive(Clone, Copy, PartialEq, Eq, Structural, Debug)]
pub struct StrikeProfile {
    pub level: u32,
    pub light_extra: u32,
    pub armored_extra: u32,
    pub range_bonus: u32,
    pub defender: Option<Defender>,
}

impl StrikeProfile {
    pub open spec fn in_bounds(&self) -> bool {
        self.defender is Some ==> self.defender->0.in_bounds()
    }
}

/// Damage of one use of `w` before the defender's armor: base damage plus
/// the upgrade level times the per-level bonus (one when the table has no
/// entry), plus the largest applicable attribute bonus.
pub open spec fn spec_weapon_damage(
    w: Weapon,
    p: StrikeProfile,
    upgrade_damage: Seq<UpgradeDamage>,
    attributes: Seq<Attribute>,
) -> int {
    let entry = spec_upgrade_damage_for(upgrade_damage, w.target);
    let per_level = match entry {
        Some(e) => match e.per_level {
            Some(v) => v as int,
            None => 1,
        },
        None => 1,
    };
    let per_attribute = match entry {
        Some(e) => e.attribute_bonus@,
        None => Seq::empty(),
    };
    let bonus = spec_best_bonus(w.damage_bonus@, attributes, p.level, per_attribute, p.light_extra, p.armored_extra);
    w.damage + p.level * per_level + match bonus {
        Some(b) => b,
        None => 0,
    }
}

/// What a guardian shield adds to both armors against an attack from
/// `range`: two from range two on, nothing against melee.
pub open spec fn guardian_bonus(d: Defender, range: int) -> int {
    if d.guardian_shield && range >= 2000 {
        2
    } else {
        0
    }
}

/// (total damage of one use, interval, range) of a weapon. Against a
/// concrete defender the total follows its shield, health and armor; a
/// guardian shield adds two to both armors against attacks from range two
/// or more. Against a profile it is damage times attacks.
pub open spec fn spec_strike(
    w: Weapon,
    p: StrikeProfile,
    upgrade_damage: Seq<UpgradeDamage>,
    attributes: Seq<Attribute>,
) -> (int, u32, int) {
    let damage = spec_weapon_damage(w, p, upgrade_damage, attributes);
    let range = w.range + p.range_bonus;
    let total = match p.defender {
        Some(d) => {
            let g = guardian_bonus(d, range);
            spec_attack_damage(damage, w.attacks as nat, d.shield, d.health, d.shield_armor + g, d.armor + g)
        },
        None => damage * w.attacks,
    };
    (total, w.speed, range)
}

/// Whether `w` may be used when weapons that hit only `excluded` are
/// ruled out; `Any` rules out none.
pub open spec fn eligible(w: Weapon, excluded: TargetType) -> bool {
    excluded == TargetType::Any || w.target != excluded
}

/// Among the weapons that do not hit only `excluded` (all of them when it
/// is `Any`), the one with the largest total damage; the last of equals.
pub open spec fn spec_pick(
    ws: Seq<Weapon>,
    excluded: TargetType,
    p: StrikeProfile,
    upgrade_damage: Seq<UpgradeDamage>,
    attributes: Seq<Attribute>,
) -> Option<(int, u32, int)>
    decreases ws.len(),
{
    if ws.len() == 0 {
        None
    } else {
        let earlier = spec_pick(ws.drop_last(), excluded, p, upgrade_damage, attributes);
        let w = ws.last();
        if !eligible(w, excluded) {
            earlier
        } else {
            let s = spec_strike(w, p, upgrade_damage, attributes);
            match earlier {
                Some(b) => if s.0 >= b.0 {
                    Some(s)
                } else {
                    Some(b)
                },
                None => Some(s),
            }
        }
    }
}

/// A bound on the total damage of one use of any weapon, so that the
/// damage per second can be computed in 128 bits.
pub const MAX_TOTAL: u128 = 0x5_0000_0000_0000_0000_0000_0000;

fn strike(w: &Weapon, p: &StrikeProfile, upgrade_damage: &[UpgradeDamage], attributes: &[Attribute]) -> (r: (
    u128,
    u32,
    u64,
))
    requires
        p.in_bounds(),
    ensures
        r.0 == spec_strike(*w, *p, upgrade_damage@, attributes@).0,
        r.1 == spec_strike(*w, *p, upgrade_damage@, attributes@).1,
        r.2 == spec_strike(*w, *p, upgrade_damage@, attributes@).2,
        r.0 <= MAX_TOTAL,
{
    let entry = upgrade_damage_for(upgrade_damage, w.target);
    let per_level: u32 = match entry {
        Some(e) => match e.per_level {
            Some(v) => v,
            None => 1,
        },
        None => 1,
    };
    let empty: Vec<(Attribute, u32)> = Vec::new();
    let per_attribute: &Vec<(Attribute, u32)> = match entry {
        Some(e) => &e.attribute_bonus,
        None => &empty,
    };
    assert(per_attribute@ == (match spec_upgrade_damage_for(upgrade_damage@, w.target) {
        Some(e) => e.attribute_bonus@,
        None => Seq::<(Attribute, u32)>::empty(),
    }));
    let bonus = best_bonus(&w.damage_bonus, attributes, p.level, per_attribute, p.light_extra, p.armored_extra);
    assert(p.level * per_level <= 0xFFFF_FFFF * 0xFFFF_FFFF) by (nonlinear_arith)
        requires
            p.level <= 0xFFFF_FFFF,
            per_level <= 0xFFFF_FFFF,
    ;
    let extra: u128 = match bonus {
        Some(b) => b,
        None => 0,
    };
    let damage: u128 = w.damage as u128 + p.level as u128 * per_level as u128 + extra;
    let range: u64 = w.range as u64 + p.range_bonus as u64;
    let total: u128 = match p.defender {
        Some(d) => {
            let g: i64 = if d.guardian_shield && range >= 2000 {
                2
            } else {
                0
            };
            attack_damage(damage, w.attacks, d.shield, d.health, d.shield_armor + g, d.armor + g)
        },
        None => {
            assert(damage * w.attacks <= 0x5_0000_0000_0000_0000 * 0xFFFF_FFFF) by (nonlinear_arith)
                requires
                    damage <= 0x5_0000_0000_0000_0000,
                    w.attacks <= 0xFFFF_FFFF,
            ;
            damage * w.attacks as u128
        },
    };
    (total, w.speed, range)
}

fn pick(
    ws: &[Weapon],
    excluded: TargetType,
    p: &StrikeProfile,
    upgrade_damage: &[UpgradeDamage],
    attributes: &[Attribute],
) -> (r: Option<(u128, u32, u64)>)
    requires
        p.in_bounds(),
    ensures
        r is None <==> spec_pick(ws@, excluded, *p, upgrade_damage@, attributes@) is None,
        r matches Some(s) ==> spec_pick(ws@, excluded, *p, upgrade_damage@, attributes@) == Some(
            (s.0 as int, s.1, s.2 as int),
        ) && s.0 <= MAX_TOTAL,
{
    let mut best: Option<(u128, u32, u64)> = None;
    let mut i: usize = 0;
    while i < ws.len()
        invariant
            p.in_bounds(),
            i <= ws@.len(),
            best is None <==> spec_pick(ws@.take(i as int), excluded, *p, upgrade_damage@, attributes@) is None,
            best matches Some(b) ==> spec_pick(ws@.take(i as int), excluded, *p, upgrade_damage@, attributes@)
                == Some((b.0 as int, b.1, b.2 as int)) && b.0 <= MAX_TOTAL,
        decreases ws@.len() - i,
    {
        assert(ws@.take(i + 1).drop_last() =~= ws@.take(i as int));
        assert(ws@.take(i + 1).last() == ws@[i as int]);
        let w = &ws[i];
        if excluded == TargetType::Any || w.target != excluded {
            let s = strike(w, p, upgrade_damage, attributes);
            best = match best {
                Some(b) => if s.0 >= b.0 {
                    Some(s)
                } else {
                    Some(b)
                },
                None => Some(s),
            };
        }
        i = i + 1;
    }
    assert(ws@.take(ws@.len() as int) =~= ws@);
    best
}

/// The interval multiplier as (numerator, denominator): each stimpack
/// shortens the interval to two thirds, time warp doubles it, and the
/// attack-speed upgrades of zerglings and adepts scale it by 5/7 and 20/29.
pub open spec fn spec_interval_factor(
    buffs: Seq<u32>,
    t: unit_type::UnitTypeId,
    upgrades: Set<u32>,
) -> (int, int) {
    let stim = buffs.contains(buff::STIMPACK);
    let stim_marauder = buffs.contains(buff::STIMPACK_MARAUDER);
    let warp = buffs.contains(buff::TIME_WARP_PRODUCTION);
    let zergling = t == unit_type::ZERGLING && upgrades.contains(upgrade::ZERGLING_ATTACK_SPEED);
    let adept = t == unit_type::ADEPT && upgrades.contains(upgrade::ADEPT_PIERCING_ATTACK);
    let num = (if stim {
        2int
    } else {
        1
    }) * (if stim_marauder {
        2int
    } else {
        1
    }) * (if warp {
        2int
    } else {
        1
    }) * (if zergling {
        5int
    } else {
        1
    }) * (if adept {
        20int
    } else {
        1
    });
    let den = (if stim {
        3int
    } else {
        1
    }) * (if stim_marauder {
        3int
    } else {
        1
    }) * (if zergling {
        7int
    } else {
        1
    }) * (if adept {
        29int
    } else {
        1
    });
    (num, den)
}

/// Damage per second in thousandths, from the total damage of one use and
/// the weapon's interval in milliseconds scaled by `num / den`; zero for a
/// zero interval.
pub open spec fn spec_per_second(total: int, speed: u32, num: int, den: int) -> u128 {
    if speed == 0 {
        0
    } else {
        (total * 1_000_000 * den / (speed * num)) as u128
    }
}

impl<'a> Unit<'a> {
    /// The defender that `target` is against this unit's attacks: base armor
    /// plus its armor level, three less of both armors under a shredder
    /// missile, two more armor for a Terran structure with building armor or
    /// an ultralisk with chitinous plating (upgrades of the other side).
    pub open spec fn spec_defender(&self, target: &Unit) -> Defender {
        let shred = if target.buffs@.contains(buff::RAVEN_SHREDDER_MISSILE_ARMOR_REDUCTION) {
            3int
        } else {
            0
        };
        let ups = self.spec_other_upgrades();
        let plating = if !ups.is_empty() {
            if target.spec_race() == Race::Terran {
                if target.spec_attributes().contains(Attribute::Structure) && ups.contains(
                    upgrade::TERRAN_BUILDING_ARMOR,
                ) {
                    2int
                } else {
                    0
                }
            } else if (target.type_id == unit_type::ULTRALISK || target.type_id
                == unit_type::ULTRALISK_BURROWED) && ups.contains(upgrade::CHITINOUS_PLATING) {
                2
            } else {
                0
            }
        } else {
            0
        };
        Defender {
            shield: target.shield,
            health: target.health,
            armor: (target.spec_armor() + target.armor_upgrade_level - shred + plating) as i64,
            shield_armor: (target.shield_upgrade_level - shred) as i64,
            guardian_shield: target.buffs@.contains(buff::GUARDIAN_SHIELD),
        }
    }

    fn defender(&self, target: &Unit) -> (r: Defender)
        ensures
            r == self.spec_defender(target),
            r.in_bounds(),
    {
        let shred: i64 = if target.has_buff(buff::RAVEN_SHREDDER_MISSILE_ARMOR_REDUCTION) {
            3
        } else {
            0
        };
        let ups = if self.is_mine() {
            &self.data.enemy_upgrades
        } else {
            &self.data.upgrades
        };
        let plating: i64 = if !ups.is_empty() {
            if target.race() == Race::Terran {
                if target.has_attribute(Attribute::Structure) && fx_contains(ups, &upgrade::TERRAN_BUILDING_ARMOR) {
                    2
                } else {
                    0
                }
            } else if (target.type_id == unit_type::ULTRALISK || target.type_id
                == unit_type::ULTRALISK_BURROWED) && fx_contains(ups, &upgrade::CHITINOUS_PLATING) {
                2
            } else {
                0
            }
        } else {
            0
        };
        Defender {
            shield: target.shield,
            health: target.health,
            armor: target.armor() as i64 + target.armor_upgrade_level as i64 - shred + plating,
            shield_armor: target.shield_upgrade_level as i64 - shred,
            guardian_shield: target.has_buff(buff::GUARDIAN_SHIELD),
        }
    }

    pub open spec fn spec_light_extra(&self) -> u32 {
        if self.spec_upgrades().contains(upgrade::HIGH_CAPACITY_BARRELS) {
            if self.type_id == unit_type::HELLION {
                5
            } else if self.type_id == unit_type::HELLION_TANK {
                12
            } else {
                0
            }
        } else {
            0
        }
    }

    pub open spec fn spec_upgrade_damage(&self) -> Seq<UpgradeDamage> {
        match self.data.tables.damage_bonus_per_upgrade@.get(self.type_id) {
            Some(v) => v@,
            None => Seq::empty(),
        }
    }

    /// What the weapons are resolved against: (weapon kind excluded, target
    /// attributes, defender, armored extra).
    pub open spec fn spec_resolution(&self, target: CalcTarget) -> (TargetType, Seq<Attribute>, Option<Defender>, u32) {
        match target {
            CalcTarget::Unit(t) => (
                if t.type_id == unit_type::COLOSSUS {
                    TargetType::Any
                } else {
                    spec_excluded_for(t.is_flying)
                },
                t.spec_attributes(),
                Some(self.spec_defender(t)),
                if t.buffs@.contains(buff::VOID_RAY_SWARM_DAMAGE_BOOST) {
                    6u32
                } else {
                    0
                },
            ),
            CalcTarget::Abstract(tt, attributes) => (
                match tt {
                    TargetType::Any => TargetType::Any,
                    TargetType::Ground => TargetType::Air,
                    TargetType::Air => TargetType::Ground,
                },
                attributes@,
                None,
                0,
            ),
        }
    }

    /// The profile that every weapon of the unit is resolved with.
    pub open spec fn spec_profile(&self, target: CalcTarget) -> StrikeProfile {
        let res = self.spec_resolution(target);
        StrikeProfile {
            level: self.attack_upgrade_level,
            light_extra: self.spec_light_extra(),
            armored_extra: res.3,
            range_bonus: spec_range_bonus(self.type_id, self.spec_upgrades()),
            defender: res.2,
        }
    }

    /// (damage per second in thousandths, range in thousandths of a cell)
    /// of the weapon that deals the most damage per use against `target`,
    /// with every upgrade, buff and armor rule applied; zero and zero when no
    /// weapon can hit it.
    pub open spec fn spec_weapon_stats(&self, target: CalcTarget) -> (u128, u64) {
        let ws = self.spec_weapons();
        let res = self.spec_resolution(target);
        let profile = self.spec_profile(target);
        let factor = spec_interval_factor(self.buffs@, self.type_id, self.spec_upgrades());
        if ws.len() == 0 {
            (0, 0)
        } else {
            match spec_pick(ws, res.0, profile, self.spec_upgrade_damage(), res.1) {
                Some(s) => (spec_per_second(s.0, s.1, factor.0, factor.1), s.2 as u64),
                None => (0, 0),
            }
        }
    }

    fn interval_factor(&self) -> (r: (u128, u128))
        ensures
            r.0 == spec_interval_factor(self.buffs@, self.type_id, self.spec_upgrades()).0,
            r.1 == spec_interval_factor(self.buffs@, self.type_id, self.spec_upgrades()).1,
            1 <= r.0 <= 160,
            1 <= r.1 <= 261,
    {
        let ups = self.upgrades();
        let stim = self.has_buff(buff::STIMPACK);
        let stim_marauder = self.has_buff(buff::STIMPACK_MARAUDER);
        let warp = self.has_buff(buff::TIME_WARP_PRODUCTION);
        let zergling = self.type_id == unit_type::ZERGLING && fx_contains(ups, &upgrade::ZERGLING_ATTACK_SPEED);
        let adept = self.type_id == unit_type::ADEPT && fx_contains(ups, &upgrade::ADEPT_PIERCING_ATTACK);
        let a: u128 = if stim { 2 } else { 1 };
        let b: u128 = if stim_marauder { 2 } else { 1 };
        let c: u128 = if warp { 2 } else { 1 };
        let d: u128 = if zergling { 5 } else { 1 };
        let e: u128 = if adept { 20 } else { 1 };
        let f: u128 = if stim { 3 } else { 1 };
        let g: u128 = if stim_marauder { 3 } else { 1 };
        let h: u128 = if zergling { 7 } else { 1 };
        let k: u128 = if adept { 29 } else { 1 };
        assert(!(zergling && adept));
        (a * b * c * d * e, f * g * h * k)
    }

    /// See `spec_weapon_stats`.
    pub fn calculate_weapon_stats(&self, target: CalcTarget) -> (r: (u128, u64))
        ensures
            r == self.spec_weapon_stats(target),
    {
        let (excluded, attributes, defender, armored_extra): (TargetType, &[Attribute], Option<Defender>, u32) =
            match target {
            CalcTarget::Unit(t) => (
                if t.type_id == unit_type::COLOSSUS {
                    TargetType::Any
                } else if t.is_flying {
                    TargetType::Ground
                } else {
                    TargetType::Air
                },
                t.attributes(),
                Some(self.defender(t)),
                if t.has_buff(buff::VOID_RAY_SWARM_DAMAGE_BOOST) {
                    6
                } else {
                    0
                },
            ),
            CalcTarget::Abstract(tt, attributes) => (
                match tt {
                    TargetType::Any => TargetType::Any,
                    TargetType::Ground => TargetType::Air,
                    TargetType::Air => TargetType::Ground,
                },
                attributes,
                None,
                0,
            ),
        };
        let ws = self.weapons();
        if ws.len() == 0 {
            return (0, 0);
        }
        let ups = self.upgrades();
        let light_extra: u32 = if fx_contains(ups, &upgrade::HIGH_CAPACITY_BARRELS) {
            if self.type_id == unit_type::HELLION {
                5
            } else if self.type_id == unit_type::HELLION_TANK {
                12
            } else {
                0
            }
        } else {
            0
        };
        let profile = StrikeProfile {
            level: self.attack_upgrade_level,
            light_extra,
            armored_extra,
            range_bonus: self.range_bonus(),
            defender,
        };
        let upgrade_damage: &[UpgradeDamage] = match fx_get(&self.data.tables.damage_bonus_per_upgrade, &self.type_id) {
            Some(v) => v.as_slice(),
            None => &[],
        };
        let (num, den) = self.interval_factor();
        let ghost res = self.spec_resolution(target);
        assert(excluded == res.0);
        assert(attributes@ == res.1);
        assert(defender == res.2);
        assert(armored_extra == res.3);
        assert(light_extra == self.spec_light_extra());
        assert(upgrade_damage@ == self.spec_upgrade_damage());
        match pick(ws, excluded, &profile, upgrade_damage, attributes) {
            Some((total, speed, range)) => {
                if speed == 0 {
                    (0, range)
                } else {
                    assert(total * 1_000_000 * den <= MAX_TOTAL * 1_000_000 * 261) by (nonlinear_arith)
                        requires
                            total <= MAX_TOTAL,
                            den <= 261,
                    ;
                    assert(speed * num >= 1) by (nonlinear_arith)
                        requires
                            speed >= 1,
                            num >= 1,
                    ;
                    assert(speed * num <= 0xFFFF_FFFF * 160) by (nonlinear_arith)
                        requires
                            speed <= 0xFFFF_FFFF,
                            num <= 160,
                    ;
                    (total * 1_000_000 * den / (speed as u128 * num), range)
                }
            },
            None => (0, 0),
        }
    }

    /// (damage per second, range) against a profile that any weapon may hit.
    pub fn real_weapon(&self, attributes: &[Attribute]) -> (r: (u128, u64))
        ensures
            r == self.spec_weapon_stats(CalcTarget::Abstract(TargetType::Any, attributes)),
    {
        self.calculate_weapon_stats(CalcTarget::Abstract(TargetType::Any, attributes))
    }

    /// (damage per second, range) against a ground profile.
    pub fn real_ground_weapon(&self, attributes: &[Attribute]) -> (r: (u128, u64))
        ensures
            r == self.spec_weapon_stats(CalcTarget::Abstract(TargetType::Ground, attributes)),
    {
        self.calculate_weapon_stats(CalcTarget::Abstract(TargetType::Ground, attributes))
    }

    /// (damage per second, range) against an air profile.
    pub fn real_air_weapon(&self, attributes: &[Attribute]) -> (r: (u128, u64))
        ensures
            r == self.spec_weapon_stats(CalcTarget::Abstract(TargetType::Air, attributes)),
    {
        self.calculate_weapon_stats(CalcTarget::Abstract(TargetType::Air, attributes))
    }

    /// (damage per second, range) against a concrete unit.
    pub fn real_weapon_vs(&self, target: &Unit) -> (r: (u128, u64))
        ensures
            r == self.spec_weapon_stats(CalcTarget::Unit(target)),
    {
        self.calculate_weapon_stats(CalcTarget::Unit(target))
    }

    /// (damage per second, range) against a profile of the given kind.
    pub fn calculate_weapon_abstract(&self, target_type: TargetType, attributes: &[Attribute]) -> (r: (
        u128,
        u64,
    ))
        ensures
            r == self.spec_weapon_stats(CalcTarget::Abstract(target_type, attributes)),
    {
        self.calculate_weapon_stats(CalcTarget::Abstract(target_type, attributes))
    }
}

/// The choice among weapons: none exactly when no weapon is eligible;
/// else the strike of an eligible weapon whose total damage is at least
/// that of every eligible weapon.
pub proof fn lemma_pick_is_max(
    ws: Seq<Weapon>,
    excluded: TargetType,
    p: StrikeProfile,
    upgrade_damage: Seq<UpgradeDamage>,
    attributes: Seq<Attribute>,
)
    ensures
        spec_pick(ws, excluded, p, upgrade_damage, attributes) is None <==> forall|j: int|
            0 <= j < ws.len() ==> !eligible(#[trigger] ws[j], excluded),
        spec_pick(ws, excluded, p, upgrade_damage, attributes) is Some ==> exists|j: int|
            0 <= j < ws.len() && eligible(ws[j], excluded) && spec_pick(ws, excluded, p, upgrade_damage, attributes)
                == Some(spec_strike(ws[j], p, upgrade_damage, attributes)) && forall|k: int|
                0 <= k < ws.len() && eligible(ws[k], excluded) ==> (#[trigger] spec_strike(
                    ws[k],
                    p,
                    upgrade_damage,
                    attributes,
                )).0 <= spec_strike(ws[j], p, upgrade_damage, attributes).0,
    decreases ws.len(),
{
    if ws.len() > 0 {
        let rest = ws.drop_last();
        let n = ws.len() - 1;
        lemma_pick_is_max(rest, excluded, p, upgrade_damage, attributes);
        assert forall|k: int| 0 <= k < n implies ws[k] == rest[k] by {}
        let earlier = spec_pick(rest, excluded, p, upgrade_damage, attributes);
        if earlier is Some {
            let j = choose|j: int|
                0 <= j < rest.len() && eligible(rest[j], excluded) && earlier == Some(
                    spec_strike(rest[j], p, upgrade_damage, attributes),
                ) && forall|k: int|
                    0 <= k < rest.len() && eligible(rest[k], excluded) ==> (#[trigger] spec_strike(
                        rest[k],
                        p,
                        upgrade_damage,
                        attributes,
                    )).0 <= spec_strike(rest[j], p, upgrade_damage, attributes).0;
            assert(ws[j] == rest[j]);
            if eligible(ws[n], excluded) {
                assert(ws.last() == ws[n]);
            }
        } else {
            assert(ws.last() == ws[n]);
        }
    }
}

/// For one weapon against a concrete defender, the shield drains first:
/// while the shield can take every attack, the total is the attacks times
/// their damage against the shield armor, whatever the defender's health
/// and armor.
pub proof fn lemma_strike_shield_first(
    w: Weapon,
    p: StrikeProfile,
    upgrade_damage: Seq<UpgradeDamage>,
    attributes: Seq<Attribute>,
)
    requires
        p.defender is Some,
        p.defender->0.shield is Some,
        p.defender->0.shield->0 > 0,
        ({
            let d = p.defender->0;
            let per = hit_damage(
                spec_weapon_damage(w, p, upgrade_damage, attributes),
                d.shield_armor + guardian_bonus(d, w.range + p.range_bonus),
            );
            d.shield->0 >= w.attacks * per
        }),
    ensures
        ({
            let d = p.defender->0;
            spec_strike(w, p, upgrade_damage, attributes).0 == w.attacks * hit_damage(
                spec_weapon_damage(w, p, upgrade_damage, attributes),
                d.shield_armor + guardian_bonus(d, w.range + p.range_bonus),
            )
        }),
{
    let d = p.defender->0;
    let g = guardian_bonus(d, w.range + p.range_bonus);
    lemma_shield_drains_first(
        spec_weapon_damage(w, p, upgrade_damage, attributes),
        w.attacks as nat,
        d.shield->0,
        d.health,
        d.shield_armor + g,
        d.armor + g,
    );
}

/// For one weapon against a concrete defender with no shield left and at
/// least as much health as the weapon has attacks, every attack counts for
/// at least one damage, however high the armor.
pub proof fn lemma_strike_each_attack_counts(
    w: Weapon,
    p: StrikeProfile,
    upgrade_damage: Seq<UpgradeDamage>,
    attributes: Seq<Attribute>,
)
    requires
        p.defender is Some,
        p.defender->0.shield is None || p.defender->0.shield == Some(0u32),
        p.defender->0.health is Some,
        p.defender->0.health->0 >= w.attacks,
    ensures
        spec_strike(w, p, upgrade_damage, attributes).0 >= w.attacks,
{
    let d = p.defender->0;
    let g = guardian_bonus(d, w.range + p.range_bonus);
    lemma_each_attack_counts(
        spec_weapon_damage(w, p, upgrade_damage, attributes),
        w.attacks as nat,
        d.shield,
        d.health->0,
        d.shield_armor + g,
        d.armor + g,
    );
}

impl<'a> Unit<'a> {
    /// The resolution picks the best weapon: with no eligible weapon the
    /// result is zero and zero; else it is the damage per second and range
    /// of an eligible weapon whose total damage per use (with the largest
    /// applicable bonus, see `lemma_best_bonus_is_max`) is at least that of
    /// every other eligible weapon.
    pub proof fn lemma_weapon_stats_picks_best(&self, target: CalcTarget)
        ensures
            ({
                let ws = self.spec_weapons();
                let res = self.spec_resolution(target);
                let p = self.spec_profile(target);
                let ud = self.spec_upgrade_damage();
                let f = spec_interval_factor(self.buffs@, self.type_id, self.spec_upgrades());
                &&& (forall|j: int| 0 <= j < ws.len() ==> !eligible(#[trigger] ws[j], res.0))
                    ==> self.spec_weapon_stats(target) == (0u128, 0u64)
                &&& (exists|j: int| 0 <= j < ws.len() && eligible(#[trigger] ws[j], res.0)) ==> exists|j: int|
                    0 <= j < ws.len() && eligible(ws[j], res.0) && (forall|k: int|
                        0 <= k < ws.len() && eligible(ws[k], res.0) ==> (#[trigger] spec_strike(ws[k], p, ud, res.1)).0
                            <= spec_strike(ws[j], p, ud, res.1).0) && self.spec_weapon_stats(target) == (
                    spec_per_second(spec_strike(ws[j], p, ud, res.1).0, ws[j].speed, f.0, f.1),
                    spec_strike(ws[j], p, ud, res.1).2 as u64,
                )
            }),
    {
        let ws = self.spec_weapons();
        let res = self.spec_resolution(target);
        lemma_pick_is_max(ws, res.0, self.spec_profile(target), self.spec_upgrade_damage(), res.1);
    }
}

} // verus!
