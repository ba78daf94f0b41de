use vstd::prelude::*;
use crate::ability::{self, AbilityId};
use crate::action::{enqueued, Commander, Target};
use crate::collections::fx_get;
use crate::geometry::Point2;
use crate::unit::Unit;
use crate::unit_type::{self, UnitTypeId};
use crate::upgrade::{self, UpgradeId};

verus! {

broadcast use vstd::std_specs::hash::group_hash_axioms;

/// An order is almost done from this progress on, in thousandths.
pub const ALMOST_DONE: u32 = 950;

/// The commander is left as it was.
pub open spec fn unchanged(before: &Commander, after: &Commander) -> bool {
    after.commands@ == before.commands@
}

impl<'a> Unit<'a> {
    pub open spec fn spec_is_idle(&self) -> bool {
        self.orders@.len() == 0
    }

    /// The first order's ability, when there is an order.
    pub open spec fn spec_first_ability(&self) -> Option<AbilityId> {
        if self.orders@.len() == 0 {
            None
        } else {
            Some(self.orders@[0].ability)
        }
    }

    /// The target of the first order; `Empty` when idle.
    pub fn target(&self) -> (r: Target)
        ensures
            r == (if self.orders@.len() == 0 {
                Target::Empty
            } else {
                self.orders@[0].target
            }),
    {
        if self.is_idle() {
            Target::Empty
        } else {
            self.orders[0].target
        }
    }

    /// The point the first order aims at, if it aims at a point.
    pub fn target_pos(&self) -> (r: Option<Point2>)
        ensures
            r == (if self.orders@.len() > 0 && self.orders@[0].target is Pos {
                Some(self.orders@[0].target->Pos_0)
            } else {
                None
            }),
    {
        match self.target() {
            Target::Pos(pos) => Some(pos),
            _ => None,
        }
    }

    /// The unit the first order aims at, if it aims at a unit.
    pub fn target_tag(&self) -> (r: Option<u64>)
        ensures
            r == (if self.orders@.len() > 0 && self.orders@[0].target is Tag {
                Some(self.orders@[0].target->Tag_0)
            } else {
                None
            }),
    {
        match self.target() {
            Target::Tag(tag) => Some(tag),
            _ => None,
        }
    }

    pub fn ordered_ability(&self) -> (r: Option<AbilityId>)
        ensures
            r == self.spec_first_ability(),
    {
        if self.is_idle() {
            None
        } else {
            Some(self.orders[0].ability)
        }
    }

    /// No order at all.
    pub fn is_idle(&self) -> (r: bool)
        ensures
            r == self.spec_is_idle(),
    {
        self.orders.len() == 0
    }

    pub open spec fn spec_is_almost_idle(&self) -> bool {
        self.orders@.len() == 0 || (self.orders@.len() == 1 && self.orders@[0].progress >= ALMOST_DONE)
    }

    /// Idle, or about to be: a single order that is almost done.
    pub fn is_almost_idle(&self) -> (r: bool)
        ensures
            r == self.spec_is_almost_idle(),
    {
        self.is_idle() || (self.orders.len() == 1 && self.orders[0].progress >= ALMOST_DONE)
    }

    /// Has a free production slot: with a reactor, fewer than two orders;
    /// else no order.
    pub fn is_unused(&self) -> (r: bool)
        ensures
            r == (if self.spec_has_reactor() {
                self.orders@.len() < 2
            } else {
                self.orders@.len() == 0
            }),
    {
        if self.has_reactor() {
            self.orders.len() < 2
        } else {
            self.is_idle()
        }
    }

    /// Has, or is about to have, a free production slot: with a reactor,
    /// fewer than two orders or one of two almost done.
    pub fn is_almost_unused(&self) -> (r: bool)
        ensures
            r == (if self.spec_has_reactor() {
                self.orders@.len() < 2 || (self.orders@.len() == 2 && (self.orders@[0].progress
                    >= ALMOST_DONE || self.orders@[1].progress >= ALMOST_DONE))
            } else {
                self.spec_is_almost_idle()
            }),
    {
        if self.has_reactor() {
            self.orders.len() < 2 || (self.orders.len() == 2 && (self.orders[0].progress >= ALMOST_DONE
                || self.orders[1].progress >= ALMOST_DONE))
        } else {
            self.is_almost_idle()
        }
    }

    /// Whether the first order uses `ability`.
    pub fn is_using(&self, ability: AbilityId) -> (r: bool)
        ensures
            r == (self.spec_first_ability() == Some(ability)),
    {
        !self.is_idle() && self.orders[0].ability == ability
    }

    /// Whether the first order uses one of `abilities`.
    pub fn is_using_any(&self, abilities: &[AbilityId]) -> (r: bool)
        ensures
            r == (self.orders@.len() > 0 && abilities@.contains(self.orders@[0].ability)),
    {
        if self.is_idle() {
            return false;
        }
        let a = self.orders[0].ability;
        let mut i: usize = 0;
        while i < abilities.len()
            invariant
                self.orders@.len() > 0,
                a == self.orders@[0].ability,
                i <= abilities@.len(),
                forall|j: int| 0 <= j < i ==> abilities@[j] != a,
            decreases abilities@.len() - i,
        {
            if abilities[i] == a {
                assert(abilities@[i as int] == a);
                return true;
            }
            i = i + 1;
        }
        false
    }

    pub fn is_attacking(&self) -> (r: bool)
        ensures
            r == (self.spec_first_ability() matches Some(a) && (a == ability::ATTACK || a == ability::ATTACK_ATTACK
                || a == ability::ATTACK_ATTACK_TOWARDS || a == ability::ATTACK_ATTACK_BARRAGE || a
                == ability::SCAN_MOVE)),
    {
        if self.is_idle() {
            return false;
        }
        let a = self.orders[0].ability;
        a == ability::ATTACK || a == ability::ATTACK_ATTACK || a == ability::ATTACK_ATTACK_TOWARDS || a
            == ability::ATTACK_ATTACK_BARRAGE || a == ability::SCAN_MOVE
    }

    pub fn is_moving(&self) -> (r: bool)
        ensures
            r == (self.spec_first_ability() == Some(ability::MOVE_MOVE)),
    {
        self.is_using(ability::MOVE_MOVE)
    }

    pub fn is_patrolling(&self) -> (r: bool)
        ensures
            r == (self.spec_first_ability() == Some(ability::PATROL)),
    {
        self.is_using(ability::PATROL)
    }

    pub fn is_repairing(&self) -> (r: bool)
        ensures
            r == (self.spec_first_ability() matches Some(a) && (a == ability::EFFECT_REPAIR || a
                == ability::EFFECT_REPAIR_SCV || a == ability::EFFECT_REPAIR_MULE)),
    {
        if self.is_idle() {
            return false;
        }
        let a = self.orders[0].ability;
        a == ability::EFFECT_REPAIR || a == ability::EFFECT_REPAIR_SCV || a == ability::EFFECT_REPAIR_MULE
    }

    pub fn is_gathering(&self) -> (r: bool)
        ensures
            r == (self.spec_first_ability() == Some(ability::HARVEST_GATHER)),
    {
        self.is_using(ability::HARVEST_GATHER)
    }

    pub fn is_returning(&self) -> (r: bool)
        ensures
            r == (self.spec_first_ability() == Some(ability::HARVEST_RETURN)),
    {
        self.is_using(ability::HARVEST_RETURN)
    }

    /// Gathering or returning resources.
    pub fn is_collecting(&self) -> (r: bool)
        ensures
            r == (self.spec_first_ability() matches Some(a) && (a == ability::HARVEST_GATHER || a
                == ability::HARVEST_RETURN)),
    {
        if self.is_idle() {
            return false;
        }
        let a = self.orders[0].ability;
        a == ability::HARVEST_GATHER || a == ability::HARVEST_RETURN
    }

    /// Whether the first order places a structure.
    pub fn is_constructing(&self) -> (r: bool)
        ensures
            r == (self.spec_first_ability() matches Some(a) && ability::spec_is_constructing(a)),
    {
        !self.is_idle() && ability::is_constructing(self.orders[0].ability)
    }

    pub fn is_making_addon(&self) -> (r: bool)
        ensures
            r == (self.spec_first_ability() matches Some(a) && (a == ability::BUILD_TECH_LAB_BARRACKS || a
                == ability::BUILD_REACTOR_BARRACKS || a == ability::BUILD_TECH_LAB_FACTORY || a
                == ability::BUILD_REACTOR_FACTORY || a == ability::BUILD_TECH_LAB_STARPORT || a
                == ability::BUILD_REACTOR_STARPORT)),
    {
        if self.is_idle() {
            return false;
        }
        let a = self.orders[0].ability;
        a == ability::BUILD_TECH_LAB_BARRACKS || a == ability::BUILD_REACTOR_BARRACKS || a
            == ability::BUILD_TECH_LAB_FACTORY || a == ability::BUILD_REACTOR_FACTORY || a
            == ability::BUILD_TECH_LAB_STARPORT || a == ability::BUILD_REACTOR_STARPORT
    }

    pub fn is_making_techlab(&self) -> (r: bool)
        ensures
            r == (self.spec_first_ability() matches Some(a) && (a == ability::BUILD_TECH_LAB_BARRACKS || a
                == ability::BUILD_TECH_LAB_FACTORY || a == ability::BUILD_TECH_LAB_STARPORT)),
    {
        if self.is_idle() {
            return false;
        }
        let a = self.orders[0].ability;
        a == ability::BUILD_TECH_LAB_BARRACKS || a == ability::BUILD_TECH_LAB_FACTORY || a
            == ability::BUILD_TECH_LAB_STARPORT
    }

    pub fn is_making_reactor(&self) -> (r: bool)
        ensures
            r == (self.spec_first_ability() matches Some(a) && (a == ability::BUILD_REACTOR_BARRACKS || a
                == ability::BUILD_REACTOR_FACTORY || a == ability::BUILD_REACTOR_STARPORT)),
    {
        if self.is_idle() {
            return false;
        }
        let a = self.orders[0].ability;
        a == ability::BUILD_REACTOR_BARRACKS || a == ability::BUILD_REACTOR_FACTORY || a
            == ability::BUILD_REACTOR_STARPORT
    }

    /// A command that repeats the unit's current first order is dropped,
    /// unless it is queued or the unit allows repeats.
    pub open spec fn spec_command_suppressed(&self, ability: AbilityId, target: Target, queue: bool) -> bool {
        !queue && !self.allow_spam && self.orders@.len() > 0 && self.orders@[0].ability == ability
            && self.orders@[0].target == target
    }

    /// What issuing the command does to the commander.
    pub open spec fn spec_command_effect(
        &self,
        before: &Commander,
        after: &Commander,
        ability: AbilityId,
        target: Target,
        queue: bool,
    ) -> bool {
        if self.spec_command_suppressed(ability, target, queue) {
            unchanged(before, after)
        } else {
            enqueued(before, after, ability, target, queue, self.tag)
        }
    }

    /// Issues a command for this unit: its tag joins the bucket of
    /// (ability, target, queue), unless the command would only repeat the
    /// current first order.
    pub fn command(&self, commander: &mut Commander, ability: AbilityId, target: Target, queue: bool)
        requires
            old(commander).wf(),
        ensures
            final(commander).wf(),
            self.spec_command_effect(old(commander), final(commander), ability, target, queue),
    {
        if !(queue || self.allow_spam || self.is_idle()) {
            let last = &self.orders[0];
            if ability == last.ability && target == last.target {
                return;
            }
        }
        commander.push_command(ability, target, queue, self.tag);
    }

    pub fn use_ability(&self, commander: &mut Commander, ability: AbilityId, queue: bool)
        requires
            old(commander).wf(),
        ensures
            final(commander).wf(),
            self.spec_command_effect(old(commander), final(commander), ability, Target::Empty, queue),
    {
        self.command(commander, ability, Target::Empty, queue)
    }

    pub fn smart(&self, commander: &mut Commander, target: Target, queue: bool)
        requires
            old(commander).wf(),
        ensures
            final(commander).wf(),
            self.spec_command_effect(old(commander), final(commander), ability::SMART, target, queue),
    {
        self.command(commander, ability::SMART, target, queue)
    }

    pub fn attack(&self, commander: &mut Commander, target: Target, queue: bool)
        requires
            old(commander).wf(),
        ensures
            final(commander).wf(),
            self.spec_command_effect(old(commander), final(commander), ability::ATTACK, target, queue),
    {
        self.command(commander, ability::ATTACK, target, queue)
    }

    pub fn move_to(&self, commander: &mut Commander, target: Target, queue: bool)
        requires
            old(commander).wf(),
        ensures
            final(commander).wf(),
            self.spec_command_effect(old(commander), final(commander), ability::MOVE_MOVE, target, queue),
    {
        self.command(commander, ability::MOVE_MOVE, target, queue)
    }

    pub fn hold_position(&self, commander: &mut Commander, queue: bool)
        requires
            old(commander).wf(),
        ensures
            final(commander).wf(),
            self.spec_command_effect(old(commander), final(commander), ability::HOLD_POSITION, Target::Empty, queue),
    {
        self.command(commander, ability::HOLD_POSITION, Target::Empty, queue)
    }

    pub fn gather(&self, commander: &mut Commander, target: u64, queue: bool)
        requires
            old(commander).wf(),
        ensures
            final(commander).wf(),
            self.spec_command_effect(old(commander), final(commander), ability::HARVEST_GATHER, Target::Tag(target), queue),
    {
        self.command(commander, ability::HARVEST_GATHER, Target::Tag(target), queue)
    }

    pub fn return_resource(&self, commander: &mut Commander, queue: bool)
        requires
            old(commander).wf(),
        ensures
            final(commander).wf(),
            self.spec_command_effect(old(commander), final(commander), ability::HARVEST_RETURN, Target::Empty, queue),
    {
        self.command(commander, ability::HARVEST_RETURN, Target::Empty, queue)
    }

    pub fn stop(&self, commander: &mut Commander, queue: bool)
        requires
            old(commander).wf(),
        ensures
            final(commander).wf(),
            self.spec_command_effect(old(commander), final(commander), ability::STOP, Target::Empty, queue),
    {
        self.command(commander, ability::STOP, Target::Empty, queue)
    }

    pub fn patrol(&self, commander: &mut Commander, target: Target, queue: bool)
        requires
            old(commander).wf(),
        ensures
            final(commander).wf(),
            self.spec_command_effect(old(commander), final(commander), ability::PATROL, target, queue),
    {
        self.command(commander, ability::PATROL, target, queue)
    }

    pub fn repair(&self, commander: &mut Commander, target: u64, queue: bool)
        requires
            old(commander).wf(),
        ensures
            final(commander).wf(),
            self.spec_command_effect(old(commander), final(commander), ability::EFFECT_REPAIR, Target::Tag(target), queue),
    {
        self.command(commander, ability::EFFECT_REPAIR, Target::Tag(target), queue)
    }

    pub fn cancel_building(&self, commander: &mut Commander, queue: bool)
        requires
            old(commander).wf(),
        ensures
            final(commander).wf(),
            self.spec_command_effect(old(commander), final(commander), ability::CANCEL_BUILD_IN_PROGRESS, Target::Empty, queue),
    {
        self.command(commander, ability::CANCEL_BUILD_IN_PROGRESS, Target::Empty, queue)
    }

    /// Cancels the last queued order; town halls use their own cancel.
    pub fn cancel_queue(&self, commander: &mut Commander, queue: bool)
        requires
            old(commander).wf(),
        ensures
            final(commander).wf(),
            self.spec_command_effect(
                old(commander),
                final(commander),
                if unit_type::spec_is_townhall(self.type_id) {
                    ability::CANCEL_QUEUE_CANCEL_TO_SELECTION
                } else {
                    ability::CANCEL_QUEUE5
                },
                Target::Empty,
                queue,
            ),
    {
        let a = if self.is_townhall() {
            ability::CANCEL_QUEUE_CANCEL_TO_SELECTION
        } else {
            ability::CANCEL_QUEUE5
        };
        self.command(commander, a, Target::Empty, queue)
    }

    /// The ability that produces unit type `t`, if the game data has one.
    pub open spec fn spec_producing_ability(&self, t: UnitTypeId) -> Option<AbilityId> {
        match self.data.game_data.units@.get(t) {
            Some(d) => d.ability,
            None => None,
        }
    }

    fn producing_ability(&self, t: UnitTypeId) -> (r: Option<AbilityId>)
        ensures
            r == self.spec_producing_ability(t),
    {
        match fx_get(&self.data.game_data.units, &t) {
            Some(data) => data.ability,
            None => None,
        }
    }

    /// Builds the race's gas structure on the geyser `target`; nothing when
    /// the game data has no ability for it.
    pub fn build_gas(&self, commander: &mut Commander, target: u64, queue: bool)
        requires
            old(commander).wf(),
        ensures
            final(commander).wf(),
            match self.spec_producing_ability(self.data.race_values.gas) {
                Some(a) => self.spec_command_effect(old(commander), final(commander), a, Target::Tag(target), queue),
                None => unchanged(old(commander), final(commander)),
            },
    {
        if let Some(a) = self.producing_ability(self.data.race_values.gas) {
            self.command(commander, a, Target::Tag(target), queue);
        }
    }

    /// Builds a structure of type `unit` at `target`; nothing when the game
    /// data has no ability for it.
    pub fn build(&self, commander: &mut Commander, unit: UnitTypeId, target: Point2, queue: bool)
        requires
            old(commander).wf(),
        ensures
            final(commander).wf(),
            match self.spec_producing_ability(unit) {
                Some(a) => self.spec_command_effect(old(commander), final(commander), a, Target::Pos(target), queue),
                None => unchanged(old(commander), final(commander)),
            },
    {
        if let Some(a) = self.producing_ability(unit) {
            self.command(commander, a, Target::Pos(target), queue);
        }
    }

    /// Trains a unit of type `unit`; nothing when the game data has no
    /// ability for it.
    pub fn train(&self, commander: &mut Commander, unit: UnitTypeId, queue: bool)
        requires
            old(commander).wf(),
        ensures
            final(commander).wf(),
            match self.spec_producing_ability(unit) {
                Some(a) => self.spec_command_effect(old(commander), final(commander), a, Target::Empty, queue),
                None => unchanged(old(commander), final(commander)),
            },
    {
        if let Some(a) = self.producing_ability(unit) {
            self.command(commander, a, Target::Empty, queue);
        }
    }

    /// The ability that researches `u`: the three vehicle and ship plating
    /// levels share one; others come from the game data.
    pub open spec fn spec_research_ability(&self, u: UpgradeId) -> Option<AbilityId> {
        if u == upgrade::TERRAN_VEHICLE_AND_SHIP_ARMORS_LEVEL1 || u == upgrade::TERRAN_VEHICLE_AND_SHIP_ARMORS_LEVEL2
            || u == upgrade::TERRAN_VEHICLE_AND_SHIP_ARMORS_LEVEL3 {
            Some(ability::RESEARCH_TERRAN_VEHICLE_AND_SHIP_PLATING)
        } else {
            match self.data.game_data.upgrades@.get(u) {
                Some(d) => Some(d.ability),
                None => None,
            }
        }
    }

    /// Researches `upgrade`; nothing when no ability for it is known.
    pub fn research(&self, commander: &mut Commander, upgrade: UpgradeId, queue: bool)
        requires
            old(commander).wf(),
        ensures
            final(commander).wf(),
            match self.spec_research_ability(upgrade) {
                Some(a) => self.spec_command_effect(old(commander), final(commander), a, Target::Empty, queue),
                None => unchanged(old(commander), final(commander)),
            },
    {
        if upgrade == upgrade::TERRAN_VEHICLE_AND_SHIP_ARMORS_LEVEL1 || upgrade
            == upgrade::TERRAN_VEHICLE_AND_SHIP_ARMORS_LEVEL2 || upgrade
            == upgrade::TERRAN_VEHICLE_AND_SHIP_ARMORS_LEVEL3 {
            self.command(commander, ability::RESEARCH_TERRAN_VEHICLE_AND_SHIP_PLATING, Target::Empty, queue);
        } else {
            if let Some(data) = fx_get(&self.data.game_data.upgrades, &upgrade) {
                self.command(commander, data.ability, Target::Empty, queue);
            }
        }
    }

    /// Warps in a unit of type `unit` at `target` from a warp gate, never
    /// queued; nothing when the type cannot be warped in.
    pub fn warp_in(&self, commander: &mut Commander, unit: UnitTypeId, target: Point2)
        requires
            old(commander).wf(),
        ensures
            final(commander).wf(),
            match self.data.tables.warpgate_abilities@.get(unit) {
                Some(a) => self.spec_command_effect(old(commander), final(commander), a, Target::Pos(target), false),
                None => unchanged(old(commander), final(commander)),
            },
    {
        if let Some(a) = fx_get(&self.data.tables.warpgate_abilities, &unit) {
            self.command(commander, *a, Target::Pos(target), false);
        }
    }
}

/// Command batching: a command that only repeats an unqueued unit's current
/// first order, with repeats not allowed, leaves the commander as it was;
/// any other command, in particular any queued one or one with another
/// target, appends the unit's tag to the bucket of exactly that
/// (ability, target, queue) and leaves every other bucket as it was.
pub proof fn lemma_command_batching(
    u: &Unit,
    before: &Commander,
    after: &Commander,
    ability: AbilityId,
    target: Target,
    queue: bool,
)
    requires
        u.spec_command_effect(before, after, ability, target, queue),
    ensures
        !queue && !u.allow_spam && u.orders@.len() > 0 && u.orders@[0].ability == ability
            && u.orders@[0].target == target ==> after.commands@ == before.commands@,
        queue || u.allow_spam || u.orders@.len() == 0 || u.orders@[0].ability != ability
            || u.orders@[0].target != target ==> after.spec_tags(ability, target, queue)
            == before.spec_tags(ability, target, queue).push(u.tag),
        queue ==> after.has_bucket(ability, target, queue),
        forall|a: AbilityId, t: Target, q: bool|
            !(a == ability && t == target && q == queue) ==> after.spec_tags(a, t, q) == before.spec_tags(a, t, q),
{
}

} // verus!
