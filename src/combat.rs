use vstd::prelude::*;
use crate::game_data::{lookup_attribute, spec_lookup_attribute, Attribute, contains_attribute};

verus! {

/// Damage is computed in 128 bits; every input below this bound leaves room
/// for the sums of a whole volley.
pub const MAX_DAMAGE: u128 = 0x1_0000_0000_0000_0000_0000;

/// Damage of one attack against `armor`: reduced by the armor, but never
/// below one.
pub open spec fn hit_damage(damage: int, armor: int) -> int {
    if damage - armor > 1 {
        damage - armor
    } else {
        1
    }
}

/// The attacks of a volley spent on a shield. From `dealt` damage so far
/// and `left` attacks, gives (damage dealt to the shield, damage carried
/// over to health, attacks left). Attacks land on the shield until it is
/// exhausted; the shield then counts for its own value only, and the
/// overshoot of the breaking attack carries over to health.
pub open spec fn shield_phase(dealt: int, shield: int, per_hit: int, left: nat) -> (int, int, nat)
    decreases left,
{
    if dealt >= shield {
        (shield, dealt - shield, left)
    } else if left == 0 {
        (dealt, 0, 0)
    } else {
        shield_phase(dealt + per_hit, shield, per_hit, (left - 1) as nat)
    }
}

/// The attacks of a volley spent on health, starting from `dealt`; they stop
/// once health is exhausted.
pub open spec fn health_phase(dealt: int, health: int, per_hit: int, left: nat) -> int
    decreases left,
{
    if left == 0 || dealt >= health {
        dealt
    } else {
        health_phase(dealt + per_hit, health, per_hit, (left - 1) as nat)
    }
}

/// Total damage of `attacks` attacks of `damage` each against a defender:
/// shield first (when present and positive) against `shield_armor`, then
/// health (when present and positive) against `armor`.
pub open spec fn spec_attack_damage(
    damage: int,
    attacks: nat,
    shield: Option<u32>,
    health: Option<u32>,
    shield_armor: int,
    armor: int,
) -> int {
    let s = if shield is Some && shield->0 > 0 {
        shield_phase(0, shield->0 as int, hit_damage(damage, shield_armor), attacks)
    } else {
        (0, 0, attacks)
    };
    let h = if health is Some && health->0 > 0 {
        health_phase(s.1, health->0 as int, hit_damage(damage, armor), s.2)
    } else {
        s.1
    };
    s.0 + h
}

proof fn lemma_health_phase_all_land(dealt: int, health: int, per_hit: int, left: nat)
    requires
        per_hit >= 1,
        left >= 1 ==> dealt + (left - 1) * per_hit < health,
    ensures
        health_phase(dealt, health, per_hit, left) == dealt + left * per_hit,
    decreases left,
{
    if left > 0 {
        assert(dealt + (left - 1) * per_hit >= dealt) by (nonlinear_arith)
            requires
                per_hit >= 1,
                left >= 1,
        ;
        assert((dealt + per_hit) + (left - 1 - 1) * per_hit == dealt + (left - 1) * per_hit) by (nonlinear_arith);
        lemma_health_phase_all_land(dealt + per_hit, health, per_hit, (left - 1) as nat);
        assert(dealt + per_hit + (left - 1) * per_hit == dealt + left * per_hit) by (nonlinear_arith);
        assert(dealt < health);
    } else {
        assert(left * per_hit == 0);
    }
}

/// Armor reduces the damage of each attack but never below one point: an
/// attack deals `max(1, damage - armor)`, and against health alone every
/// attack of a volley lands for that much while the defender still stands
/// before the last one.
pub proof fn lemma_armor_never_below_one(damage: int, armor: int, attacks: nat, health: u32)
    requires
        health > 0,
        attacks >= 1 ==> (attacks - 1) * hit_damage(damage, armor) < health,
    ensures
        hit_damage(damage, armor) >= 1,
        damage - armor >= 1 ==> hit_damage(damage, armor) == damage - armor,
        spec_attack_damage(damage, attacks, None, Some(health), 0, armor) == attacks * hit_damage(damage, armor),
{
    lemma_health_phase_all_land(0, health as int, hit_damage(damage, armor), attacks);
}

/// How many attacks of `per_hit` it takes to exhaust a shield.
pub open spec fn attacks_to_break(shield: int, per_hit: int) -> int {
    (shield + per_hit - 1) / per_hit
}

proof fn lemma_shield_from(j: int, k: int, shield: int, per_hit: int, left: nat)
    requires
        per_hit >= 1,
        shield >= 1,
        0 <= j <= k,
        (k - 1) * per_hit < shield <= k * per_hit,
    ensures
        shield_phase(j * per_hit, shield, per_hit, left) == (if left < k - j {
            ((j + left) * per_hit, 0int, 0nat)
        } else {
            (shield, k * per_hit - shield, (left - (k - j)) as nat)
        }),
    decreases left,
{
    if j < k {
        assert(j * per_hit <= (k - 1) * per_hit) by (nonlinear_arith)
            requires
                j <= k - 1,
                per_hit >= 1,
        ;
    }
    if j == k {
    } else if left > 0 {
        assert(j * per_hit + per_hit == (j + 1) * per_hit) by (nonlinear_arith);
        lemma_shield_from(j + 1, k, shield, per_hit, (left - 1) as nat);
        assert((j + 1 + (left - 1)) * per_hit == (j + left) * per_hit);
    } else if left == 0 {
        assert((j + 0) * per_hit == j * per_hit);
    }
}

/// A shield takes whole attacks until it is exhausted: of `attacks` attacks
/// at `max(1, damage - shield_armor)` each, the first `attacks_to_break`
/// land on the shield. Once it breaks, the shield counts for its own value,
/// and the overshoot past it carries over to health together with the
/// attacks still to come; before that nothing carries over.
pub proof fn lemma_shield_exhaustion(damage: int, attacks: nat, shield: u32, shield_armor: int)
    requires
        shield > 0,
    ensures
        ({
            let per = hit_damage(damage, shield_armor);
            let k = attacks_to_break(shield as int, per);
            shield_phase(0, shield as int, per, attacks) == (if attacks < k {
                (attacks * per, 0int, 0nat)
            } else {
                (shield as int, k * per - shield, (attacks - k) as nat)
            })
        }),
{
    let per = hit_damage(damage, shield_armor);
    let x = shield + per - 1;
    let k = attacks_to_break(shield as int, per);
    vstd::arithmetic::div_mod::lemma_fundamental_div_mod(x, per);
    vstd::arithmetic::div_mod::lemma_mod_bound(x, per);
    assert(k * per == per * k) by (nonlinear_arith);
    assert((k - 1) * per == k * per - per) by (nonlinear_arith);
    assert(0 * per == 0);
    lemma_shield_from(0, k, shield as int, per, attacks);
    assert((0 + attacks) * per == attacks * per);
}

proof fn lemma_health_phase_lower(dealt: int, health: int, per_hit: int, left: nat)
    requires
        per_hit >= 1,
    ensures
        health_phase(dealt, health, per_hit, left) >= dealt,
        health_phase(dealt, health, per_hit, left) >= if health < dealt + left {
            health
        } else {
            dealt + left
        },
    decreases left,
{
    if left > 0 && dealt < health {
        lemma_health_phase_lower(dealt + per_hit, health, per_hit, (left - 1) as nat);
    }
}

/// A shield drains first: while the shield can take every attack of the
/// volley, the total is the attacks times their damage against the shield
/// armor, whatever the health and its armor.
pub proof fn lemma_shield_drains_first(
    damage: int,
    attacks: nat,
    shield: u32,
    health: Option<u32>,
    shield_armor: int,
    armor: int,
)
    requires
        shield > 0,
        shield >= attacks * hit_damage(damage, shield_armor),
    ensures
        spec_attack_damage(damage, attacks, Some(shield), health, shield_armor, armor) == attacks * hit_damage(
            damage,
            shield_armor,
        ),
{
    let per = hit_damage(damage, shield_armor);
    let k = attacks_to_break(shield as int, per);
    lemma_shield_exhaustion(damage, attacks, shield, shield_armor);
    let x = shield + per - 1;
    vstd::arithmetic::div_mod::lemma_fundamental_div_mod(x, per);
    vstd::arithmetic::div_mod::lemma_mod_bound(x, per);
    assert(k * per == per * k) by (nonlinear_arith);
    assert(k * per >= shield);
    if attacks > k {
        assert(attacks * per > k * per) by (nonlinear_arith)
            requires
                attacks > k,
                per >= 1,
        ;
    }
}

/// No attack is lost to armor: against health alone, with at least as much
/// health as attacks, a volley deals at least one damage per attack.
pub proof fn lemma_each_attack_counts(
    damage: int,
    attacks: nat,
    shield: Option<u32>,
    health: u32,
    shield_armor: int,
    armor: int,
)
    requires
        shield is None || shield == Some(0u32),
        health >= attacks,
    ensures
        spec_attack_damage(damage, attacks, shield, Some(health), shield_armor, armor) >= attacks,
{
    if attacks > 0 {
        lemma_health_phase_lower(0, health as int, hit_damage(damage, armor), attacks);
    }
}

fn hit(damage: u128, armor: i64) -> (r: u128)
    requires
        damage <= MAX_DAMAGE,
    ensures
        r == hit_damage(damage as int, armor as int),
        r <= MAX_DAMAGE + 0x8000_0000_0000_0000,
{
    let d: i128 = damage as i128 - armor as i128;
    if d > 1 {
        d as u128
    } else {
        1
    }
}

/// Damage that one use of a weapon deals to a defender; see `spec_attack_damage`.
pub fn attack_damage(
    damage: u128,
    attacks: u32,
    shield: Option<u32>,
    health: Option<u32>,
    shield_armor: i64,
    armor: i64,
) -> (r: u128)
    requires
        damage <= MAX_DAMAGE,
    ensures
        r == spec_attack_damage(damage as int, attacks as nat, shield, health, shield_armor as int, armor as int),
        r <= 4 * MAX_DAMAGE,
{
    let mut left: u32 = attacks;
    let mut shield_dealt: u128 = 0;
    let mut carried: u128 = 0;
    if let Some(s) = shield {
        if s > 0 {
            let per = hit(damage, shield_armor);
            while left > 0 && shield_dealt < s as u128
                invariant
                    shield_phase(shield_dealt as int, s as int, per as int, left as nat)
                        == shield_phase(0, s as int, per as int, attacks as nat),
                    shield_dealt <= s + per,
                    per <= MAX_DAMAGE + 0x8000_0000_0000_0000,
                decreases left,
            {
                shield_dealt = shield_dealt + per;
                left = left - 1;
            }
            if shield_dealt >= s as u128 {
                carried = shield_dealt - s as u128;
                shield_dealt = s as u128;
            }
            assert(carried <= per);
        }
    }
    let mut health_dealt: u128 = carried;
    let ghost left0 = left;
    if let Some(h) = health {
        if h > 0 {
            let per = hit(damage, armor);
            while left > 0 && health_dealt < h as u128
                invariant
                    health_phase(health_dealt as int, h as int, per as int, left as nat)
                        == health_phase(carried as int, h as int, per as int, left0 as nat),
                    health_dealt <= h + per + carried,
                    carried <= MAX_DAMAGE + 0x8000_0000_0000_0000,
                    per <= MAX_DAMAGE + 0x8000_0000_0000_0000,
                decreases left,
            {
                health_dealt = health_dealt + per;
                left = left - 1;
            }
        }
    }
    shield_dealt + health_dealt
}

/// What one entry of a weapon's bonus table adds against a target with
/// `attributes`: nothing unless the target has the entry's attribute; else
/// the entry's bonus, plus `level` times the per-level bonus of that
/// attribute, plus the flat extras for light and for armored targets.
pub open spec fn bonus_candidate(
    entry: (Attribute, u32),
    attributes: Seq<Attribute>,
    level: u32,
    per_attribute: Seq<(Attribute, u32)>,
    light_extra: u32,
    armored_extra: u32,
) -> Option<int> {
    if attributes.contains(entry.0) {
        let per = match spec_lookup_attribute(per_attribute, entry.0) {
            Some(p) => p as int,
            None => 0,
        };
        Some(
            entry.1 + level * per + (if entry.0 == Attribute::Light {
                light_extra as int
            } else {
                0
            }) + (if entry.0 == Attribute::Armored {
                armored_extra as int
            } else {
                0
            }),
        )
    } else {
        None
    }
}

pub open spec fn max_opt(a: Option<int>, b: Option<int>) -> Option<int> {
    match (a, b) {
        (None, _) => b,
        (_, None) => a,
        (Some(x), Some(y)) => Some(if x >= y { x } else { y }),
    }
}

/// The largest candidate of a bonus table; none when no entry applies.
pub open spec fn spec_best_bonus(
    bonuses: Seq<(Attribute, u32)>,
    attributes: Seq<Attribute>,
    level: u32,
    per_attribute: Seq<(Attribute, u32)>,
    light_extra: u32,
    armored_extra: u32,
) -> Option<int>
    decreases bonuses.len(),
{
    if bonuses.len() == 0 {
        None
    } else {
        max_opt(
            bonus_candidate(bonuses[0], attributes, level, per_attribute, light_extra, armored_extra),
            spec_best_bonus(bonuses.drop_first(), attributes, level, per_attribute, light_extra, armored_extra),
        )
    }
}

/// Bonus damage is the largest applicable bonus, never a sum of several:
/// it is at least every applicable entry's candidate and equal to one of
/// them, and absent exactly when no entry applies.
pub proof fn lemma_best_bonus_is_max(
    bonuses: Seq<(Attribute, u32)>,
    attributes: Seq<Attribute>,
    level: u32,
    per_attribute: Seq<(Attribute, u32)>,
    light_extra: u32,
    armored_extra: u32,
)
    ensures
        ({
            let best = spec_best_bonus(bonuses, attributes, level, per_attribute, light_extra, armored_extra);
            &&& best is None <==> forall|i: int| 0 <= i < bonuses.len() ==> bonus_candidate(
                bonuses[i], attributes, level, per_attribute, light_extra, armored_extra) is None
            &&& forall|i: int| 0 <= i < bonuses.len() && bonus_candidate(
                bonuses[i], attributes, level, per_attribute, light_extra, armored_extra) is Some
                ==> bonus_candidate(bonuses[i], attributes, level, per_attribute, light_extra, armored_extra)->0
                <= best->0
            &&& best is Some ==> exists|i: int| 0 <= i < bonuses.len() && bonus_candidate(
                bonuses[i], attributes, level, per_attribute, light_extra, armored_extra) == best
        }),
    decreases bonuses.len(),
{
    if bonuses.len() > 0 {
        let rest = bonuses.drop_first();
        lemma_best_bonus_is_max(rest, attributes, level, per_attribute, light_extra, armored_extra);
        let best_rest = spec_best_bonus(rest, attributes, level, per_attribute, light_extra, armored_extra);
        assert forall|i: int| 0 < i < bonuses.len() implies bonuses[i] == rest[i - 1] by {}
        if best_rest is Some {
            let j = choose|j: int| 0 <= j < rest.len() && bonus_candidate(
                rest[j], attributes, level, per_attribute, light_extra, armored_extra) == best_rest;
            assert(bonuses[j + 1] == rest[j]);
        }
    }
}

/// The bonus damage of a weapon whose bonus table is `bonuses` against a
/// target with `attributes`: the largest applicable entry, never the sum.
pub fn best_bonus(
    bonuses: &Vec<(Attribute, u32)>,
    attributes: &[Attribute],
    level: u32,
    per_attribute: &Vec<(Attribute, u32)>,
    light_extra: u32,
    armored_extra: u32,
) -> (r: Option<u128>)
    ensures
        r is None <==> spec_best_bonus(bonuses@, attributes@, level, per_attribute@, light_extra, armored_extra) is None,
        r is Some ==> spec_best_bonus(bonuses@, attributes@, level, per_attribute@, light_extra, armored_extra)
            == Some(r->0 as int),
        r is Some ==> r->0 <= 0x3_0000_0000_0000_0000,
{
    let mut best: Option<u128> = None;
    let mut i: usize = bonuses.len();
    while i > 0
        invariant
            i <= bonuses@.len(),
            best is None <==> spec_best_bonus(bonuses@.skip(i as int), attributes@, level, per_attribute@, light_extra, armored_extra) is None,
            best is Some ==> spec_best_bonus(bonuses@.skip(i as int), attributes@, level, per_attribute@, light_extra, armored_extra)
                == Some(best->0 as int),
            best is Some ==> best->0 <= 0x3_0000_0000_0000_0000,
        decreases i,
    {
        i = i - 1;
        assert(bonuses@.skip(i as int).drop_first() =~= bonuses@.skip(i + 1));
        let (attribute, bonus) = bonuses[i];
        if contains_attribute(attributes, attribute) {
            let per: u32 = match lookup_attribute(per_attribute, attribute) {
                Some(p) => p,
                None => 0,
            };
            assert(level * per <= 0xFFFF_FFFF * 0xFFFF_FFFF) by (nonlinear_arith)
                requires
                    level <= 0xFFFF_FFFF,
                    per <= 0xFFFF_FFFF,
            ;
            let mut value: u128 = bonus as u128 + level as u128 * per as u128;
            if attribute == Attribute::Light {
                value = value + light_extra as u128;
            }
            if attribute == Attribute::Armored {
                value = value + armored_extra as u128;
            }
            best = match best {
                None => Some(value),
                Some(b) => Some(if value >= b { value } else { b }),
            };
        }
    }
    assert(bonuses@.skip(0) =~= bonuses@);
    best
}

} // verus!
