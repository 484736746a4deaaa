use vstd::prelude::*;
use crate::roster::{Monster, MonsterView, MoveSlot, SlotVisual};

verus! {

/// One side of the battle: its party, which party member stands in each
/// active slot, and what the viewer shows of each active slot.
#[derive(Clone, Debug)]
pub struct Team {
    pub id: u64,
    pub party: Vec<Monster>,
    pub active: Vec<Option<usize>>,
    pub visuals: Vec<SlotVisual>,
}

pub struct TeamView {
    pub id: u64,
    pub party: Seq<MonsterView>,
    pub active: Seq<Option<usize>>,
    pub visuals: Seq<SlotVisual>,
}

impl View for Team {
    type V = TeamView;

    open spec fn view(&self) -> TeamView {
        TeamView {
            id: self.id,
            party: self.party@.map_values(|m: Monster| m@),
            active: self.active@,
            visuals: self.visuals@,
        }
    }
}

impl TeamView {
    /// The party index standing in an active slot, if the slot exists, is
    /// occupied and names a member of the party.
    pub open spec fn member_at(self, slot: int) -> Option<usize> {
        if 0 <= slot < self.active.len() && self.active[slot] is Some
            && (self.active[slot]->0 as int) < self.party.len() {
            self.active[slot]
        } else {
            None
        }
    }

    pub open spec fn with_member(self, j: int, m: MonsterView) -> TeamView {
        TeamView { party: self.party.update(j, m), ..self }
    }

    /// An active slot now holds `new`; a slot past the end changes nothing.
    pub open spec fn with_active(self, slot: int, new: Option<usize>) -> TeamView {
        if 0 <= slot < self.active.len() {
            TeamView { active: self.active.update(slot, new), ..self }
        } else {
            self
        }
    }

    /// A member of the party is now known as `m`; an index at the end adds it.
    pub open spec fn with_revealed(self, j: int, m: MonsterView) -> TeamView {
        if 0 <= j < self.party.len() {
            TeamView { party: self.party.update(j, m), ..self }
        } else if j == self.party.len() {
            TeamView { party: self.party.push(m), ..self }
        } else {
            self
        }
    }

    pub open spec fn has_visual(self, slot: int) -> bool {
        0 <= slot < self.visuals.len()
    }

    pub open spec fn with_visual(self, slot: int, v: SlotVisual) -> TeamView {
        if self.has_visual(slot) {
            TeamView { visuals: self.visuals.update(slot, v), ..self }
        } else {
            self
        }
    }

    pub open spec fn is_active_member(self, j: int) -> bool {
        exists|k: int| 0 <= k < self.active.len() && self.active[k] == Some(j as usize)
    }

    /// Some member of the party that stands in no active slot has not fainted.
    pub open spec fn any_inactive(self) -> bool {
        exists|j: int|
            0 <= j < self.party.len() && !self.is_active_member(j) && !self.party[j].fainted()
    }
}

impl Team {
    pub fn member_at(&self, slot: usize) -> (r: Option<usize>)
        ensures
            r == self@.member_at(slot as int),
    {
        if slot < self.active.len() {
            match self.active[slot] {
                Some(j) => if j < self.party.len() {
                    Some(j)
                } else {
                    None
                },
                None => None,
            }
        } else {
            None
        }
    }

    pub fn replace(&mut self, slot: usize, new: Option<usize>)
        ensures
            final(self)@ == old(self)@.with_active(slot as int, new),
    {
        if slot < self.active.len() {
            self.active.set(slot, new);
        }
        assert(self@.active =~= old(self)@.with_active(slot as int, new).active);
    }

    pub fn active_contains(&self, j: usize) -> (r: bool)
        ensures
            r == self@.is_active_member(j as int),
    {
        let mut k: usize = 0;
        while k < self.active.len()
            invariant
                k <= self.active@.len(),
                forall|q: int| 0 <= q < k ==> self.active@[q] != Some(j),
            decreases self.active@.len() - k,
        {
            if self.active[k] == Some(j) {
                return true;
            }
            k += 1;
        }
        false
    }

    pub fn any_inactive(&self) -> (r: bool)
        ensures
            r == self@.any_inactive(),
    {
        let mut j: usize = 0;
        while j < self.party.len()
            invariant
                j <= self.party@.len(),
                forall|q: int|
                    0 <= q < j ==> #[trigger] self@.party[q].fainted() || self@.is_active_member(q),
            decreases self.party@.len() - j,
        {
            if !self.party[j].fainted() && !self.active_contains(j) {
                return true;
            }
            j += 1;
        }
        false
    }

    pub fn visual(&self, slot: usize) -> (r: Option<SlotVisual>)
        ensures
            r == (if self@.has_visual(slot as int) {
                Some(self@.visuals[slot as int])
            } else {
                None
            }),
    {
        if slot < self.visuals.len() {
            Some(self.visuals[slot])
        } else {
            None
        }
    }

    pub fn set_visual(&mut self, slot: usize, v: SlotVisual)
        ensures
            final(self)@ == old(self)@.with_visual(slot as int, v),
    {
        if slot < self.visuals.len() {
            self.visuals.set(slot, v);
        }
        assert(self@.visuals =~= old(self)@.with_visual(slot as int, v).visuals);
    }

    proof fn lemma_member_updated(old_t: Team, new_t: Team, j: int)
        requires
            0 <= j < old_t.party@.len(),
            new_t.id == old_t.id,
            new_t.active@ == old_t.active@,
            new_t.visuals@ == old_t.visuals@,
            new_t.party@ == old_t.party@.update(j, new_t.party@[j]),
        ensures
            new_t@ == old_t@.with_member(j, new_t.party@[j]@),
    {
        assert(new_t@.party =~= old_t@.with_member(j, new_t.party@[j]@).party);
    }

    pub fn set_hp(&mut self, j: usize, hp: u16)
        requires
            j < old(self).party@.len(),
        ensures
            final(self)@ == old(self)@.with_member(j as int, old(self)@.party[j as int].with_hp(hp)),
    {
        self.party[j].hp = hp;
        proof {
            Self::lemma_member_updated(*old(self), *self, j as int);
        }
    }

    pub fn set_ailment(&mut self, j: usize, a: u8)
        requires
            j < old(self).party@.len(),
        ensures
            final(self)@ == old(self)@.with_member(j as int, old(self)@.party[j as int].with_ailment(a)),
    {
        self.party[j].ailment = Some(a);
        proof {
            Self::lemma_member_updated(*old(self), *self, j as int);
        }
    }

    pub fn set_progress(&mut self, j: usize, level: u8, experience: u32)
        requires
            j < old(self).party@.len(),
        ensures
            final(self)@ == old(self)@.with_member(
                j as int,
                old(self)@.party[j as int].with_progress(level, experience),
            ),
    {
        self.party[j].level = level;
        self.party[j].experience = experience;
        assert(self.party@ =~= old(self).party@.update(j as int, self.party@[j as int]));
        proof {
            Self::lemma_member_updated(*old(self), *self, j as int);
        }
    }

    pub fn change_stage(&mut self, j: usize, stat: u8, delta: i8)
        requires
            j < old(self).party@.len(),
        ensures
            final(self)@ == old(self)@.with_member(
                j as int,
                old(self)@.party[j as int].with_stage_change(stat, delta),
            ),
    {
        self.party[j].change_stage(stat, delta);
        proof {
            Self::lemma_member_updated(*old(self), *self, j as int);
        }
    }

    pub fn decrement_pp(&mut self, j: usize, move_id: u32, cost: u8)
        requires
            j < old(self).party@.len(),
        ensures
            final(self)@ == old(self)@.with_member(
                j as int,
                old(self)@.party[j as int].with_pp_spent(move_id, cost),
            ),
    {
        self.party[j].decrement_pp(move_id, cost);
        proof {
            Self::lemma_member_updated(*old(self), *self, j as int);
        }
    }

    pub fn learn(&mut self, j: usize, slot: usize, s: MoveSlot)
        requires
            j < old(self).party@.len(),
        ensures
            final(self)@ == old(self)@.with_member(
                j as int,
                old(self)@.party[j as int].with_learned(slot, s),
            ),
    {
        self.party[j].learn(slot, s);
        proof {
            Self::lemma_member_updated(*old(self), *self, j as int);
        }
    }

    pub fn add_known(&mut self, j: usize, m: Monster)
        ensures
            final(self)@ == old(self)@.with_revealed(j as int, m@),
    {
        if j < self.party.len() {
            self.party.set(j, m);
        } else if j == self.party.len() {
            self.party.push(m);
        }
        assert(self@.party =~= old(self)@.with_revealed(j as int, m@).party);
    }

    pub fn learn_new_moves(&mut self, j: usize, level: u8, cat: &crate::catalog::Catalog) -> (offered: Vec<u32>)
        requires
            j < old(self).party@.len(),
        ensures
            final(self)@ == old(self)@.with_member(
                j as int,
                old(self)@.party[j as int].grown_into(level, *cat).0,
            ),
            offered@ == old(self)@.party[j as int].grown_into(level, *cat).1,
    {
        let offered = self.party[j].learn_new_moves(level, cat);
        proof {
            Self::lemma_member_updated(*old(self), *self, j as int);
        }
        offered
    }
}

} // verus!
