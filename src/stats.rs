use vstd::prelude::*;
use crate::buff::{self, BuffId};
use crate::collections::{fx_contains, fx_get};
use crate::game_data::{TargetType, Weapon};
use crate::unit::{Unit, contains_id};
use crate::unit_type::{self, UnitTypeId};
use crate::upgrade;

verus! {

broadcast use vstd::std_specs::hash::group_hash_axioms;

/// Game frames per second of game time, in tenths.
pub const FRAMES_PER_SECOND_TENTHS: u64 = 224;

/// The first weapon that does not hit only `excluded`.
pub open spec fn spec_first_not(ws: Seq<Weapon>, excluded: TargetType) -> Option<Weapon>
    decreases ws.len(),
{
    if ws.len() == 0 {
        None
    } else if ws[0].target != excluded {
        Some(ws[0])
    } else {
        spec_first_not(ws.drop_first(), excluded)
    }
}

pub fn first_not(ws: &[Weapon], excluded: TargetType) -> (r: Option<&Weapon>)
    ensures
        r is None <==> spec_first_not(ws@, excluded) is None,
        r is Some ==> spec_first_not(ws@, excluded) == Some(*r->0),
{
    let mut i: usize = 0;
    assert(ws@.skip(0) =~= ws@);
    while i < ws.len()
        invariant
            i <= ws@.len(),
            spec_first_not(ws@.skip(i as int), excluded) == spec_first_not(ws@, excluded),
        decreases ws@.len() - i,
    {
        assert(ws@.skip(i as int).drop_first() =~= ws@.skip(i + 1));
        if ws[i].target != excluded {
            return Some(&ws[i]);
        }
        i = i + 1;
    }
    None
}

pub open spec fn has_target(ws: Seq<Weapon>, t: TargetType) -> bool {
    exists|i: int| 0 <= i < ws.len() && ws[i].target == t
}

pub open spec fn has_target_other_than(ws: Seq<Weapon>, t: TargetType) -> bool {
    exists|i: int| 0 <= i < ws.len() && ws[i].target != t
}

/// Which of ground and air targets some weapon reaches.
fn reach_flags(ws: &[Weapon]) -> (r: (bool, bool, bool))
    ensures
        r.0 == has_target(ws@, TargetType::Ground),
        r.1 == has_target(ws@, TargetType::Air),
        r.2 == has_target(ws@, TargetType::Any),
{
    let mut ground = false;
    let mut air = false;
    let mut any = false;
    let mut i: usize = 0;
    while i < ws.len()
        invariant
            i <= ws@.len(),
            ground == exists|j: int| 0 <= j < i && ws@[j].target == TargetType::Ground,
            air == exists|j: int| 0 <= j < i && ws@[j].target == TargetType::Air,
            any == exists|j: int| 0 <= j < i && ws@[j].target == TargetType::Any,
        decreases ws@.len() - i,
    {
        match ws[i].target {
            TargetType::Ground => ground = true,
            TargetType::Air => air = true,
            TargetType::Any => any = true,
        }
        i = i + 1;
    }
    (ground, air, any)
}

/// The largest range of `ws`; zero when there is no weapon.
pub open spec fn spec_max_range(ws: Seq<Weapon>) -> u32
    decreases ws.len(),
{
    if ws.len() == 0 {
        0
    } else {
        let rest = spec_max_range(ws.drop_last());
        if ws.last().range >= rest {
            ws.last().range
        } else {
            rest
        }
    }
}

fn max_range(ws: &[Weapon]) -> (r: u32)
    ensures
        r == spec_max_range(ws@),
{
    let mut best: u32 = 0;
    let mut i: usize = 0;
    while i < ws.len()
        invariant
            i <= ws@.len(),
            best == spec_max_range(ws@.take(i as int)),
        decreases ws@.len() - i,
    {
        assert(ws@.take(i + 1).drop_last() =~= ws@.take(i as int));
        if ws[i].range >= best {
            best = ws[i].range;
        }
        i = i + 1;
    }
    assert(ws@.take(ws@.len() as int) =~= ws@);
    best
}

/// Damage per second of a weapon without upgrades, in thousandths; zero
/// when its interval is zero.
pub open spec fn spec_weapon_dps(w: Weapon) -> u128 {
    if w.speed == 0 {
        0
    } else {
        (w.damage * w.attacks * 1_000_000 / (w.speed as int)) as u128
    }
}

fn weapon_dps(w: &Weapon) -> (r: u128)
    ensures
        r == spec_weapon_dps(*w),
{
    if w.speed == 0 {
        0
    } else {
        assert(w.damage * w.attacks <= 0xFFFF_FFFF * 0xFFFF_FFFF) by (nonlinear_arith)
            requires
                w.damage <= 0xFFFF_FFFF,
                w.attacks <= 0xFFFF_FFFF,
        ;
        w.damage as u128 * w.attacks as u128 * 1_000_000 / w.speed as u128
    }
}

/// The largest damage per second of `ws`; zero when there is no weapon.
pub open spec fn spec_max_dps(ws: Seq<Weapon>) -> u128
    decreases ws.len(),
{
    if ws.len() == 0 {
        0
    } else {
        let rest = spec_max_dps(ws.drop_last());
        let d = spec_weapon_dps(ws.last());
        if d >= rest {
            d
        } else {
            rest
        }
    }
}

fn max_dps(ws: &[Weapon]) -> (r: u128)
    ensures
        r == spec_max_dps(ws@),
{
    let mut best: u128 = 0;
    let mut i: usize = 0;
    while i < ws.len()
        invariant
            i <= ws@.len(),
            best == spec_max_dps(ws@.take(i as int)),
        decreases ws@.len() - i,
    {
        assert(ws@.take(i + 1).drop_last() =~= ws@.take(i as int));
        let d = weapon_dps(&ws[i]);
        if d >= best {
            best = d;
        }
        i = i + 1;
    }
    assert(ws@.take(ws@.len() as int) =~= ws@);
    best
}

/// `speed * factor / 1000`, saturating at the largest `u32`.
pub open spec fn scale_speed(speed: u32, factor: u32) -> u32 {
    let v = speed * factor / 1000;
    if v > u32::MAX {
        u32::MAX
    } else {
        v as u32
    }
}

fn scale(speed: u32, factor: u32) -> (r: u32)
    ensures
        r == scale_speed(speed, factor),
{
    assert(speed * factor <= 0xFFFF_FFFF * 0xFFFF_FFFF) by (nonlinear_arith)
        requires
            speed <= 0xFFFF_FFFF,
            factor <= 0xFFFF_FFFF,
    ;
    let v: u64 = speed as u64 * factor as u64 / 1000;
    if v > u32::MAX as u64 {
        u32::MAX
    } else {
        v as u32
    }
}

/// Speed after the table buffs, applied in the order the buffs are listed;
/// a buff missing from `table` leaves the speed as it is.
pub open spec fn table_buffed_speed(speed: u32, buffs: Seq<BuffId>, table: Map<BuffId, u32>) -> u32
    decreases buffs.len(),
{
    if buffs.len() == 0 {
        speed
    } else {
        let next = if table.contains_key(buffs[0]) {
            scale_speed(speed, table[buffs[0]])
        } else {
            speed
        };
        table_buffed_speed(next, buffs.drop_first(), table)
    }
}

/// The speed fixed by one of the two overriding buffs, when present: a
/// medivac boost makes it seventeen tenths of the base speed, else a void
/// ray charge three quarters of it. With both, the medivac boost wins.
pub open spec fn override_speed(base: u32, buffs: Seq<BuffId>) -> Option<u32> {
    if buffs.contains(buff::MEDIVAC_SPEED_BOOST) {
        Some(scale_speed(base, 1700))
    } else if buffs.contains(buff::VOID_RAY_SWARM_DAMAGE_BOOST) {
        Some(scale_speed(base, 750))
    } else {
        None
    }
}

/// The bonus range that an upgrade gives the weapons of a unit type, in
/// thousandths of a cell.
pub open spec fn spec_range_bonus(t: UnitTypeId, upgrades: Set<u32>) -> u32 {
    if t == unit_type::HYDRALISK && upgrades.contains(upgrade::EVOLVE_GROOVED_SPINES) {
        1000
    } else if t == unit_type::PHOENIX && upgrades.contains(upgrade::PHOENIX_RANGE_UPGRADE) {
        2000
    } else if (t == unit_type::PLANETARY_FORTRESS || t == unit_type::MISSILE_TURRET || t
        == unit_type::AUTO_TURRET) && upgrades.contains(upgrade::HI_SEC_AUTO_TRACKING) {
        1000
    } else {
        0
    }
}

/// The weapon kinds that cannot hit a target: ground-only weapons for a
/// flyer, air-only ones otherwise.
pub open spec fn spec_excluded_for(flying: bool) -> TargetType {
    if flying {
        TargetType::Ground
    } else {
        TargetType::Air
    }
}

impl<'a> Unit<'a> {
    /// Weapons of the unit: none for changelings; else those of its type;
    /// else, for cocoons and burrowed banelings, those of what they become;
    /// else those of the table of missing weapons.
    pub open spec fn spec_weapons(&self) -> Seq<Weapon> {
        let t = self.type_id;
        let units = self.data.game_data.units@;
        let missed = self.data.tables.missed_weapons@;
        if unit_type::spec_is_changeling(t) {
            Seq::empty()
        } else if units.contains_key(t) && units[t].weapons@.len() > 0 {
            units[t].weapons@
        } else if t == unit_type::BANELING_BURROWED || t == unit_type::BANELING_COCOON {
            if missed.contains_key(unit_type::BANELING) {
                missed[unit_type::BANELING]@
            } else {
                Seq::empty()
            }
        } else if t == unit_type::RAVAGER_COCOON {
            if units.contains_key(unit_type::RAVAGER) {
                units[unit_type::RAVAGER].weapons@
            } else {
                Seq::empty()
            }
        } else if missed.contains_key(t) {
            missed[t]@
        } else {
            Seq::empty()
        }
    }

    pub fn weapons(&self) -> (r: &'a [Weapon])
        ensures
            r@ == self.spec_weapons(),
    {
        let t = self.type_id;
        if unit_type::is_changeling(t) {
            return &[];
        }
        if let Some(data) = fx_get(&self.data.game_data.units, &t) {
            if data.weapons.len() > 0 {
                return data.weapons.as_slice();
            }
        }
        if t == unit_type::BANELING_BURROWED || t == unit_type::BANELING_COCOON {
            match fx_get(&self.data.tables.missed_weapons, &unit_type::BANELING) {
                Some(ws) => ws.as_slice(),
                None => &[],
            }
        } else if t == unit_type::RAVAGER_COCOON {
            match fx_get(&self.data.game_data.units, &unit_type::RAVAGER) {
                Some(data) => data.weapons.as_slice(),
                None => &[],
            }
        } else {
            match fx_get(&self.data.tables.missed_weapons, &t) {
                Some(ws) => ws.as_slice(),
                None => &[],
            }
        }
    }

    pub open spec fn spec_can_attack_both(&self) -> bool {
        let ws = self.spec_weapons();
        has_target(ws, TargetType::Any) || (has_target(ws, TargetType::Ground) && has_target(ws, TargetType::Air))
    }

    /// Which targets the unit's weapons reach together: `Any` when some
    /// weapon hits both or weapons for each exist; absent with no weapon.
    pub fn weapon_target(&self) -> (r: Option<TargetType>)
        ensures
            r == (if self.spec_weapons().len() == 0 {
                None
            } else if self.spec_can_attack_both() {
                Some(TargetType::Any)
            } else if has_target(self.spec_weapons(), TargetType::Ground) {
                Some(TargetType::Ground)
            } else if has_target(self.spec_weapons(), TargetType::Air) {
                Some(TargetType::Air)
            } else {
                None
            }),
    {
        let ws = self.weapons();
        if ws.len() == 0 {
            return None;
        }
        let (ground, air, any) = reach_flags(ws);
        if any || (ground && air) {
            Some(TargetType::Any)
        } else if ground {
            Some(TargetType::Ground)
        } else if air {
            Some(TargetType::Air)
        } else {
            None
        }
    }

    pub fn can_attack(&self) -> (r: bool)
        ensures
            r == (self.spec_weapons().len() > 0),
    {
        self.weapons().len() > 0
    }

    /// Whether the unit can hit both ground and air targets.
    pub fn can_attack_both(&self) -> (r: bool)
        ensures
            r == self.spec_can_attack_both(),
    {
        let ws = self.weapons();
        if ws.len() == 0 {
            return false;
        }
        let (ground, air, any) = reach_flags(ws);
        any || (ground && air)
    }

    pub fn can_attack_ground(&self) -> (r: bool)
        ensures
            r == has_target_other_than(self.spec_weapons(), TargetType::Air),
    {
        let (ground, air, any) = reach_flags(self.weapons());
        ground || any
    }

    pub fn can_attack_air(&self) -> (r: bool)
        ensures
            r == has_target_other_than(self.spec_weapons(), TargetType::Ground),
    {
        let (ground, air, any) = reach_flags(self.weapons());
        air || any
    }

    /// Whether some weapon can hit `target`; a colossus can be hit by any weapon.
    pub fn can_attack_unit(&self, target: &Unit) -> (r: bool)
        ensures
            r == (self.spec_weapons().len() > 0 && (target.type_id == unit_type::COLOSSUS
                || has_target_other_than(self.spec_weapons(), spec_excluded_for(target.is_flying)))),
    {
        let ws = self.weapons();
        if ws.len() == 0 {
            return false;
        }
        if target.type_id == unit_type::COLOSSUS {
            true
        } else {
            let (ground, air, any) = reach_flags(ws);
            if target.is_flying {
                air || any
            } else {
                ground || any
            }
        }
    }

    /// Whether the weapon is still cooling down.
    pub fn on_cooldown(&self) -> (r: bool)
        ensures
            r == (self.weapon_cooldown is Some && self.weapon_cooldown->0 > 0),
    {
        match self.weapon_cooldown {
            Some(cool) => cool > 0,
            None => false,
        }
    }

    /// The longest weapon cooldown seen so far for this type, in thousandths
    /// of a frame.
    pub fn max_cooldown(&self) -> (r: Option<u32>)
        ensures
            r == self.data.max_cooldowns@.get(self.type_id),
    {
        match fx_get(&self.data.max_cooldowns, &self.type_id) {
            Some(c) => Some(*c),
            None => None,
        }
    }

    pub open spec fn spec_ground_range(&self) -> u32 {
        match spec_first_not(self.spec_weapons(), TargetType::Air) {
            Some(w) => w.range,
            None => 0,
        }
    }

    pub open spec fn spec_air_range(&self) -> u32 {
        match spec_first_not(self.spec_weapons(), TargetType::Ground) {
            Some(w) => w.range,
            None => 0,
        }
    }

    /// Range of the first weapon that hits ground; zero when there is none.
    pub fn ground_range(&self) -> (r: u32)
        ensures
            r == self.spec_ground_range(),
    {
        match first_not(self.weapons(), TargetType::Air) {
            Some(w) => w.range,
            None => 0,
        }
    }

    /// Range of the first weapon that hits air; zero when there is none.
    pub fn air_range(&self) -> (r: u32)
        ensures
            r == self.spec_air_range(),
    {
        match first_not(self.weapons(), TargetType::Ground) {
            Some(w) => w.range,
            None => 0,
        }
    }

    pub open spec fn spec_range_vs(&self, target: &Unit) -> u32 {
        let ws = self.spec_weapons();
        if ws.len() == 0 {
            0
        } else if target.type_id == unit_type::COLOSSUS {
            spec_max_range(ws)
        } else {
            match spec_first_not(ws, spec_excluded_for(target.is_flying)) {
                Some(w) => w.range,
                None => 0,
            }
        }
    }

    /// Range against `target`: the longest of all weapons against a
    /// colossus, else that of the first weapon that can hit it.
    pub fn range_vs(&self, target: &Unit) -> (r: u32)
        ensures
            r == self.spec_range_vs(target),
    {
        let ws = self.weapons();
        if ws.len() == 0 {
            return 0;
        }
        if target.type_id == unit_type::COLOSSUS {
            max_range(ws)
        } else {
            let excluded = if target.is_flying {
                TargetType::Ground
            } else {
                TargetType::Air
            };
            match first_not(ws, excluded) {
                Some(w) => w.range,
                None => 0,
            }
        }
    }

    pub open spec fn spec_range_bonus(&self) -> u32 {
        spec_range_bonus(self.type_id, self.spec_upgrades())
    }

    pub(crate) fn range_bonus(&self) -> (r: u32)
        ensures
            r == self.spec_range_bonus(),
            r <= 2000,
    {
        let upgrades = self.upgrades();
        let t = self.type_id;
        if t == unit_type::HYDRALISK && fx_contains(upgrades, &upgrade::EVOLVE_GROOVED_SPINES) {
            1000
        } else if t == unit_type::PHOENIX && fx_contains(upgrades, &upgrade::PHOENIX_RANGE_UPGRADE) {
            2000
        } else if (t == unit_type::PLANETARY_FORTRESS || t == unit_type::MISSILE_TURRET || t
            == unit_type::AUTO_TURRET) && fx_contains(upgrades, &upgrade::HI_SEC_AUTO_TRACKING) {
            1000
        } else {
            0
        }
    }

    /// Ground range with the range upgrades of the owner.
    pub fn real_ground_range(&self) -> (r: u64)
        ensures
            r == (match spec_first_not(self.spec_weapons(), TargetType::Air) {
                Some(w) => w.range + self.spec_range_bonus(),
                None => 0,
            }),
    {
        match first_not(self.weapons(), TargetType::Air) {
            Some(w) => w.range as u64 + self.range_bonus() as u64,
            None => 0,
        }
    }

    /// Air range with the range upgrades of the owner.
    pub fn real_air_range(&self) -> (r: u64)
        ensures
            r == (match spec_first_not(self.spec_weapons(), TargetType::Ground) {
                Some(w) => w.range + self.spec_range_bonus(),
                None => 0,
            }),
    {
        match first_not(self.weapons(), TargetType::Ground) {
            Some(w) => w.range as u64 + self.range_bonus() as u64,
            None => 0,
        }
    }

    pub open spec fn spec_real_range_vs(&self, target: &Unit) -> u64 {
        let ws = self.spec_weapons();
        if ws.len() == 0 {
            0
        } else if target.type_id == unit_type::COLOSSUS {
            (spec_max_range(ws) + self.spec_range_bonus()) as u64
        } else {
            match spec_first_not(ws, spec_excluded_for(target.is_flying)) {
                Some(w) => (w.range + self.spec_range_bonus()) as u64,
                None => 0,
            }
        }
    }

    /// Range against `target` with the range upgrades of the owner.
    pub fn real_range_vs(&self, target: &Unit) -> (r: u64)
        ensures
            r == self.spec_real_range_vs(target),
    {
        let ws = self.weapons();
        if ws.len() == 0 {
            return 0;
        }
        if target.type_id == unit_type::COLOSSUS {
            max_range(ws) as u64 + self.range_bonus() as u64
        } else {
            let excluded = if target.is_flying {
                TargetType::Ground
            } else {
                TargetType::Air
            };
            match first_not(ws, excluded) {
                Some(w) => w.range as u64 + self.range_bonus() as u64,
                None => 0,
            }
        }
    }

    /// Damage per second of the first weapon that hits ground, in thousandths.
    pub fn ground_dps(&self) -> (r: u128)
        ensures
            r == (match spec_first_not(self.spec_weapons(), TargetType::Air) {
                Some(w) => spec_weapon_dps(w),
                None => 0,
            }),
    {
        match first_not(self.weapons(), TargetType::Air) {
            Some(w) => weapon_dps(w),
            None => 0,
        }
    }

    /// Damage per second of the first weapon that hits air, in thousandths.
    pub fn air_dps(&self) -> (r: u128)
        ensures
            r == (match spec_first_not(self.spec_weapons(), TargetType::Ground) {
                Some(w) => spec_weapon_dps(w),
                None => 0,
            }),
    {
        match first_not(self.weapons(), TargetType::Ground) {
            Some(w) => weapon_dps(w),
            None => 0,
        }
    }

    /// Damage per second against `target`, in thousandths: the best weapon
    /// against a colossus, else the first weapon that can hit it.
    pub fn dps_vs(&self, target: &Unit) -> (r: u128)
        ensures
            r == (if self.spec_weapons().len() == 0 {
                0
            } else if target.type_id == unit_type::COLOSSUS {
                spec_max_dps(self.spec_weapons())
            } else {
                match spec_first_not(self.spec_weapons(), spec_excluded_for(target.is_flying)) {
                    Some(w) => spec_weapon_dps(w),
                    None => 0,
                }
            }),
    {
        let ws = self.weapons();
        if ws.len() == 0 {
            return 0;
        }
        if target.type_id == unit_type::COLOSSUS {
            max_dps(ws)
        } else {
            let excluded = if target.is_flying {
                TargetType::Ground
            } else {
                TargetType::Air
            };
            match first_not(ws, excluded) {
                Some(w) => weapon_dps(w),
                None => 0,
            }
        }
    }

    /// The first bonus of the first weapon that has a bonus table.
    pub fn damage_bonus(&self) -> (r: Option<(crate::game_data::Attribute, u32)>)
        ensures
            r is None <==> forall|i: int| 0 <= i < self.spec_weapons().len() ==> (
            #[trigger] self.spec_weapons()[i]).damage_bonus@.len() == 0,
            r is Some ==> exists|i: int| 0 <= i < self.spec_weapons().len()
                && self.spec_weapons()[i].damage_bonus@.len() > 0
                && r->0 == self.spec_weapons()[i].damage_bonus@[0]
                && forall|j: int| 0 <= j < i ==> (#[trigger] self.spec_weapons()[j]).damage_bonus@.len() == 0,
    {
        let ws = self.weapons();
        let mut i: usize = 0;
        while i < ws.len()
            invariant
                ws@ == self.spec_weapons(),
                i <= ws@.len(),
                forall|j: int| 0 <= j < i ==> (#[trigger] ws@[j]).damage_bonus@.len() == 0,
            decreases ws@.len() - i,
        {
            if ws[i].damage_bonus.len() > 0 {
                return Some(ws[i].damage_bonus[0]);
            }
            i = i + 1;
        }
        None
    }

    pub open spec fn spec_base_speed(&self) -> u32 {
        match self.spec_type_data() {
            Some(d) => d.movement_speed,
            None => 0,
        }
    }

    /// Movement speed of the type, in thousandths of a cell per second.
    pub fn speed(&self) -> (r: u32)
        ensures
            r == self.spec_base_speed(),
    {
        match self.type_data() {
            Some(data) => data.movement_speed,
            None => 0,
        }
    }

    /// Speed after buffs, upgrades and creep. Ultralisks ignore buffs. A
    /// medivac boost or a void ray charge overrides everything else (see
    /// `override_speed`). Otherwise the table buffs apply, then the speed
    /// upgrade of the type; then on creep the creep bonus of the type, and
    /// off creep, when the owner has any upgrade, the off-creep upgrade.
    pub open spec fn spec_real_speed(&self) -> u32 {
        let t = self.type_id;
        let base = self.spec_base_speed();
        let overridden = if t != unit_type::ULTRALISK {
            override_speed(base, self.buffs@)
        } else {
            None
        };
        match overridden {
            Some(v) => v,
            None => {
                let buffed = if t != unit_type::ULTRALISK {
                    table_buffed_speed(base, self.buffs@, self.data.tables.speed_buffs@)
                } else {
                    base
                };
                let ups = self.spec_upgrades();
                let s1 = match self.data.tables.speed_upgrades@.get(t) {
                    Some(e) => if ups.contains(e.0) {
                        scale_speed(buffed, e.1)
                    } else {
                        buffed
                    },
                    None => buffed,
                };
                if self.data.creep.spec_is_set(self.position) {
                    match self.data.tables.speed_on_creep@.get(t) {
                        Some(f) => scale_speed(s1, f),
                        None => s1,
                    }
                } else if !ups.is_empty() {
                    match self.data.tables.off_creep_speed_upgrades@.get(t) {
                        Some(e) => if ups.contains(e.0) {
                            scale_speed(s1, e.1)
                        } else {
                            s1
                        },
                        None => s1,
                    }
                } else {
                    s1
                }
            },
        }
    }

    /// Effective movement speed, in thousandths of a cell per second.
    pub fn real_speed(&self) -> (r: u32)
        ensures
            r == self.spec_real_speed(),
    {
        let t = self.type_id;
        let mut speed = self.speed();
        if t != unit_type::ULTRALISK {
            if self.has_buff(buff::MEDIVAC_SPEED_BOOST) {
                return scale(speed, 1700);
            }
            if self.has_buff(buff::VOID_RAY_SWARM_DAMAGE_BOOST) {
                return scale(speed, 750);
            }
            let table = &self.data.tables.speed_buffs;
            let mut i: usize = 0;
            assert(self.buffs@.skip(0) =~= self.buffs@);
            while i < self.buffs.len()
                invariant
                    table@ == self.data.tables.speed_buffs@,
                    i <= self.buffs@.len(),
                    table_buffed_speed(speed, self.buffs@.skip(i as int), table@) == table_buffed_speed(
                        self.spec_base_speed(),
                        self.buffs@,
                        table@,
                    ),
                decreases self.buffs@.len() - i,
            {
                assert(self.buffs@.skip(i as int).drop_first() =~= self.buffs@.skip(i + 1));
                let b = self.buffs[i];
                assert(self.buffs@.skip(i as int)[0] == b);
                if let Some(f) = fx_get(table, &b) {
                    speed = scale(speed, *f);
                }
                i = i + 1;
            }
            assert(self.buffs@.skip(i as int) =~= Seq::<BuffId>::empty());
        }
        let upgrades = self.upgrades();
        if let Some(e) = fx_get(&self.data.tables.speed_upgrades, &t) {
            if fx_contains(upgrades, &e.0) {
                speed = scale(speed, e.1);
            }
        }
        if self.data.creep.is_set(self.position) {
            if let Some(f) = fx_get(&self.data.tables.speed_on_creep, &t) {
                speed = scale(speed, *f);
            }
        } else if !upgrades.is_empty() {
            if let Some(e) = fx_get(&self.data.tables.off_creep_speed_upgrades, &t) {
                if fx_contains(upgrades, &e.0) {
                    speed = scale(speed, e.1);
                }
            }
        }
        speed
    }

    /// How far the unit travels between two decisions, in thousandths of a
    /// cell: speed over frames per second, times frames per decision.
    pub fn distance_per_step(&self) -> (r: u128)
        ensures
            r == self.spec_real_speed() * self.data.game_step * 10 / (FRAMES_PER_SECOND_TENTHS as int),
    {
        let speed = self.real_speed();
        assert(speed * self.data.game_step * 10 <= 0xFFFF_FFFF * 0xFFFF_FFFF * 10) by (nonlinear_arith)
            requires
                speed <= 0xFFFF_FFFF,
                self.data.game_step <= 0xFFFF_FFFF,
        ;
        speed as u128 * self.data.game_step as u128 * 10 / FRAMES_PER_SECOND_TENTHS as u128
    }

    /// How far the unit travels before its weapon is ready, in thousandths
    /// of a cell; zero when the cooldown is unknown.
    pub fn distance_to_weapon_ready(&self) -> (r: u128)
        ensures
            r == self.spec_real_speed() * (match self.weapon_cooldown {
                Some(c) => c as int,
                None => 0,
            }) * 10 / (FRAMES_PER_SECOND_TENTHS as int * 1000),
    {
        let speed = self.real_speed();
        let cooldown: u32 = match self.weapon_cooldown {
            Some(c) => c,
            None => 0,
        };
        assert(speed * cooldown * 10 <= 0xFFFF_FFFF * 0xFFFF_FFFF * 10) by (nonlinear_arith)
            requires
                speed <= 0xFFFF_FFFF,
                cooldown <= 0xFFFF_FFFF,
        ;
        speed as u128 * cooldown as u128 * 10 / (FRAMES_PER_SECOND_TENTHS as u128 * 1000)
    }
}

/// The squared distance under which a sieged tank cannot fire: two cells,
/// in millionths of a squared cell.
pub const SIEGE_MINIMUM_RANGE_SQUARED: u128 = 4_000_000;

/// Whether `target` lies within `range` plus both radii plus `gap` of
/// `attacker`, by squared distance; a sieged tank also needs the target
/// beyond its minimum range.
pub open spec fn spec_within(attacker: &Unit, target: &Unit, range: int, gap: int) -> bool {
    let total = attacker.radius + target.radius + range + gap;
    let d = attacker.position.spec_distance_squared(target.position);
    (attacker.type_id != unit_type::SIEGE_TANK_SIEGED || d > SIEGE_MINIMUM_RANGE_SQUARED) && d <= total * total
}

fn within(attacker: &Unit, target: &Unit, range: u64, gap: i64) -> (r: bool)
    requires
        range <= 0x2_0000_0000,
    ensures
        r == spec_within(attacker, target, range as int, gap as int),
{
    let total: i128 = attacker.radius as i128 + target.radius as i128 + range as i128 + gap as i128;
    let magnitude: u128 = if total < 0 {
        (-total) as u128
    } else {
        total as u128
    };
    assert(magnitude * magnitude == total * total) by (nonlinear_arith)
        requires
            magnitude == total || magnitude == -total,
    ;
    assert(magnitude * magnitude <= 0x8000_0004_0000_0000 * 0x8000_0004_0000_0000) by (nonlinear_arith)
        requires
            0 <= magnitude <= 0x8000_0004_0000_0000,
    ;
    let d = attacker.position.distance_squared(&target.position);
    (attacker.type_id != unit_type::SIEGE_TANK_SIEGED || d > SIEGE_MINIMUM_RANGE_SQUARED) && d <= magnitude
        * magnitude
}

impl<'a> Unit<'a> {
    pub open spec fn spec_in_range(&self, target: &Unit, gap: i64) -> bool {
        let ws = self.spec_weapons();
        if target.type_id == unit_type::COLOSSUS {
            ws.len() > 0 && spec_within(self, target, spec_max_range(ws) as int, gap as int)
        } else {
            let range = if target.is_flying {
                self.spec_air_range()
            } else {
                self.spec_ground_range()
            };
            range > 0 && spec_within(self, target, range as int, gap as int)
        }
    }

    /// Whether `target` is within reach of the unit's weapons without
    /// upgrades, `gap` (thousandths of a cell, possibly negative) included.
    /// Against a colossus the longest weapon counts; else the first weapon
    /// that can hit the target, and a unit with no such weapon reaches
    /// nothing.
    pub fn in_range(&self, target: &Unit, gap: i64) -> (r: bool)
        ensures
            r == self.spec_in_range(target, gap),
    {
        let range: u32 = if target.type_id == unit_type::COLOSSUS {
            let ws = self.weapons();
            if ws.len() == 0 {
                return false;
            }
            max_range(ws)
        } else {
            let range = if target.is_flying {
                self.air_range()
            } else {
                self.ground_range()
            };
            if range == 0 {
                return false;
            }
            range
        };
        within(self, target, range as u64, gap)
    }

    /// Whether the unit is within reach of `threat`.
    pub fn in_range_of(&self, threat: &Unit, gap: i64) -> (r: bool)
        ensures
            r == threat.spec_in_range(self, gap),
    {
        threat.in_range(self, gap)
    }

    pub open spec fn spec_in_real_range(&self, target: &Unit, gap: i64) -> bool {
        let range = self.spec_real_range_vs(target);
        range > 0 && spec_within(self, target, range as int, gap as int)
    }

    /// As `in_range`, with the range upgrades of the owner.
    pub fn in_real_range(&self, target: &Unit, gap: i64) -> (r: bool)
        ensures
            r == self.spec_in_real_range(target, gap),
    {
        let range = self.real_range_vs(target);
        if range == 0 {
            return false;
        }
        within(self, target, range, gap)
    }

    /// Whether the unit is within upgraded reach of `threat`.
    pub fn in_real_range_of(&self, threat: &Unit, gap: i64) -> (r: bool)
        ensures
            r == threat.spec_in_real_range(self, gap),
    {
        threat.in_real_range(self, gap)
    }
}

/// A sieged tank cannot fire at a target within its minimum range, however
/// long its weapon range and whatever the gap allowed.
pub proof fn lemma_sieged_tank_minimum_range(attacker: &Unit, target: &Unit, gap: i64)
    requires
        attacker.type_id == unit_type::SIEGE_TANK_SIEGED,
        attacker.position.spec_distance_squared(target.position) <= SIEGE_MINIMUM_RANGE_SQUARED,
    ensures
        !attacker.spec_in_range(target, gap),
        !attacker.spec_in_real_range(target, gap),
{
}

/// A medivac boost or a void ray charge settles the speed of any unit but an
/// ultralisk at once, whatever the other buffs, upgrades and creep: a
/// medivac boost gives seventeen tenths of the base speed, else a void ray
/// charge three quarters of it.
pub proof fn lemma_speed_buff_short_circuit(u: &Unit)
    requires
        u.type_id != unit_type::ULTRALISK,
        u.buffs@.contains(buff::MEDIVAC_SPEED_BOOST) || u.buffs@.contains(buff::VOID_RAY_SWARM_DAMAGE_BOOST),
    ensures
        u.buffs@.contains(buff::MEDIVAC_SPEED_BOOST) ==> u.spec_real_speed() == scale_speed(u.spec_base_speed(), 1700),
        !u.buffs@.contains(buff::MEDIVAC_SPEED_BOOST) ==> u.spec_real_speed() == scale_speed(u.spec_base_speed(), 750),
{
}

} // verus!
