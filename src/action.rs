use vstd::prelude::*;
use crate::ability::AbilityId;
use crate::geometry::Point2;

verus! {

/// What an order is aimed at: nothing (`Empty`), a point, or a unit by its tag.
#[derive(Clone, Copy, PartialEq, Eq, Structural, Debug, Hash)]
pub enum Target {
    Empty,
    Pos(Point2),
    Tag(u64),
}

/// The units that should carry out one command this tick, with the command:
/// an ability, its target and whether it is queued behind current orders.
pub struct CommandBucket {
    pub ability: AbilityId,
    pub target: Target,
    pub queue: bool,
    pub tags: Vec<u64>,
}

impl CommandBucket {
    pub open spec fn has_key(&self, ability: AbilityId, target: Target, queue: bool) -> bool {
        self.ability == ability && self.target == target && self.queue == queue
    }
}

/// Collects the commands issued during a tick, grouped by
/// (ability, target, queue flag), in the order the groups first appeared.
pub struct Commander {
    pub commands: Vec<CommandBucket>,
}

/// Under unique keys, the bucket found at `i` is the one `spec_tags` reads.
proof fn lemma_tags_at(c: &Commander, i: int, a: AbilityId, t: Target, q: bool)
    requires
        c.wf(),
        0 <= i < c.commands@.len(),
        c.commands@[i].has_key(a, t, q),
    ensures
        c.has_bucket(a, t, q),
        c.spec_tags(a, t, q) == c.commands@[i].tags@,
{
    let j = choose|j: int| 0 <= j < c.commands@.len() && c.commands@[j].has_key(a, t, q);
    if j < i {
        assert(!c.commands@[i].has_key(c.commands@[j].ability, c.commands@[j].target, c.commands@[j].queue));
    } else if i < j {
        assert(!c.commands@[j].has_key(c.commands@[i].ability, c.commands@[i].target, c.commands@[i].queue));
    }
}

/// `after` is `before` with `tag` appended to the bucket of
/// (ability, target, queue), every other bucket untouched.
pub open spec fn enqueued(before: &Commander, after: &Commander, ability: AbilityId, target: Target, queue: bool, tag: u64) -> bool {
    &&& after.wf()
    &&& after.spec_tags(ability, target, queue) == before.spec_tags(ability, target, queue).push(tag)
    &&& after.has_bucket(ability, target, queue)
    &&& forall|a: AbilityId, t: Target, q: bool|
        !(a == ability && t == target && q == queue) ==> after.spec_tags(a, t, q) == before.spec_tags(a, t, q)
            && after.has_bucket(a, t, q) == before.has_bucket(a, t, q)
}

impl Commander {
    /// No two buckets share a key.
    pub open spec fn wf(&self) -> bool {
        forall|i: int, j: int|
            0 <= i < j < self.commands@.len() ==> !self.commands@[j].has_key(
                self.commands@[i].ability,
                self.commands@[i].target,
                self.commands@[i].queue,
            )
    }

    pub open spec fn has_bucket(&self, ability: AbilityId, target: Target, queue: bool) -> bool {
        exists|i: int| 0 <= i < self.commands@.len() && self.commands@[i].has_key(ability, target, queue)
    }

    /// The tags collected for a command; empty when it was never issued.
    pub open spec fn spec_tags(&self, ability: AbilityId, target: Target, queue: bool) -> Seq<u64> {
        if self.has_bucket(ability, target, queue) {
            let i = choose|i: int| 0 <= i < self.commands@.len() && self.commands@[i].has_key(ability, target, queue);
            self.commands@[i].tags@
        } else {
            Seq::empty()
        }
    }

    pub fn new() -> (r: Commander)
        ensures
            r.wf(),
            r.commands@.len() == 0,
    {
        Commander { commands: Vec::new() }
    }

    /// Adds `tag` to the bucket of the command, creating the bucket if absent.
    pub fn push_command(&mut self, ability: AbilityId, target: Target, queue: bool, tag: u64)
        requires
            old(self).wf(),
        ensures
            enqueued(old(self), final(self), ability, target, queue, tag),
    {
        let mut i: usize = 0;
        while i < self.commands.len()
            invariant
                self.commands@ == old(self).commands@,
                old(self).wf(),
                i <= self.commands@.len(),
                forall|j: int| 0 <= j < i ==> !self.commands@[j].has_key(ability, target, queue),
            decreases self.commands@.len() - i,
        {
            if self.commands[i].ability == ability && self.commands[i].target == target
                && self.commands[i].queue == queue {
                let ghost before = self.commands@;
                self.commands[i].tags.push(tag);
                proof {
                    let after = self.commands@;
                    assert forall|x: int| 0 <= x < after.len() implies after[x].ability == before[x].ability
                        && after[x].target == before[x].target && after[x].queue == before[x].queue by {}
                    assert forall|x: int, y: int| 0 <= x < y < after.len() implies !after[y].has_key(
                        after[x].ability, after[x].target, after[x].queue) by {
                        assert(!before[y].has_key(before[x].ability, before[x].target, before[x].queue));
                    }
                    lemma_tags_at(old(self), i as int, ability, target, queue);
                    lemma_tags_at(final(self), i as int, ability, target, queue);
                    assert(final(self).spec_tags(ability, target, queue) =~= old(self).spec_tags(ability, target, queue).push(tag));
                    assert forall|a: AbilityId, t: Target, q: bool|
                        !(a == ability && t == target && q == queue) implies final(self).spec_tags(a, t, q)
                            == old(self).spec_tags(a, t, q) && (final(self).has_bucket(a, t, q)
                            == old(self).has_bucket(a, t, q)) by {
                        if old(self).has_bucket(a, t, q) {
                            let jb = choose|j: int| 0 <= j < before.len() && before[j].has_key(a, t, q);
                            lemma_tags_at(old(self), jb, a, t, q);
                            lemma_tags_at(final(self), jb, a, t, q);
                        } else {
                            if final(self).has_bucket(a, t, q) {
                                let ja = choose|j: int| 0 <= j < after.len() && after[j].has_key(a, t, q);
                                assert(before[ja].has_key(a, t, q));
                            }
                        }
                    }
                }
                return;
            }
            i = i + 1;
        }
        let mut tags: Vec<u64> = Vec::new();
        tags.push(tag);
        let ghost before = self.commands@;
        self.commands.push(CommandBucket { ability, target, queue, tags });
        proof {
            let after = self.commands@;
            let n = before.len() as int;
            assert forall|x: int, y: int| 0 <= x < y < after.len() implies !after[y].has_key(
                after[x].ability, after[x].target, after[x].queue) by {
                if y < n {
                    assert(!before[y].has_key(before[x].ability, before[x].target, before[x].queue));
                } else {
                    assert(!before[x].has_key(ability, target, queue));
                }
            }
            assert(!old(self).has_bucket(ability, target, queue));
            lemma_tags_at(final(self), n, ability, target, queue);
            assert(final(self).spec_tags(ability, target, queue) =~= old(self).spec_tags(ability, target, queue).push(tag));
            assert forall|a: AbilityId, t: Target, q: bool|
                !(a == ability && t == target && q == queue) implies final(self).spec_tags(a, t, q)
                    == old(self).spec_tags(a, t, q) && (final(self).has_bucket(a, t, q)
                    == old(self).has_bucket(a, t, q)) by {
                if old(self).has_bucket(a, t, q) {
                    let jb = choose|j: int| 0 <= j < before.len() && before[j].has_key(a, t, q);
                    lemma_tags_at(old(self), jb, a, t, q);
                    assert(after[jb] == before[jb]);
                    lemma_tags_at(final(self), jb, a, t, q);
                } else {
                    if final(self).has_bucket(a, t, q) {
                        let ja = choose|j: int| 0 <= j < after.len() && after[j].has_key(a, t, q);
                        assert(ja != n);
                        assert(before[ja].has_key(a, t, q));
                    }
                }
            }
        }
    }

    /// Hands over every bucket collected so far and starts afresh.
    pub fn take_commands(&mut self) -> (r: Vec<CommandBucket>)
        ensures
            r@ == old(self).commands@,
            final(self).commands@.len() == 0,
            final(self).wf(),
    {
        let mut taken: Vec<CommandBucket> = Vec::new();
        core::mem::swap(&mut self.commands, &mut taken);
        taken
    }
}

} // verus!
