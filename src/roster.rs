use vstd::prelude::*;
use crate::catalog::Catalog;

verus! {

/// How many moves a monster knows at most.
pub const MOVE_SLOTS: usize = 4;

/// The lowest and highest stage a stat can reach.
pub const STAGE_MIN: i8 = -6;
pub const STAGE_MAX: i8 = 6;

/// A known move of a monster and its remaining power points.
#[derive(Clone, Copy, Debug, PartialEq, Eq, Structural)]
pub struct MoveSlot {
    pub move_id: u32,
    pub pp: u8,
}

/// A move that a species learns on reaching a level.
#[derive(Clone, Copy, Debug, PartialEq, Eq, Structural)]
pub struct Learnable {
    pub level: u8,
    pub move_id: u32,
}

/// One member of a party, as far as the viewer can see it.
/// `known` is false for an opposing monster whose instance is hidden.
#[derive(Clone, Debug)]
pub struct Monster {
    pub name: String,
    pub level: u8,
    pub experience: u32,
    /// Remaining health, in thousandths of the maximum.
    pub hp: u16,
    pub ailment: Option<u8>,
    pub stages: Vec<i8>,
    pub moves: Vec<MoveSlot>,
    pub learnset: Vec<Learnable>,
    pub known: bool,
}

pub struct MonsterView {
    pub name: Seq<char>,
    pub level: u8,
    pub experience: u32,
    pub hp: u16,
    pub ailment: Option<u8>,
    pub stages: Seq<i8>,
    pub moves: Seq<MoveSlot>,
    pub learnset: Seq<Learnable>,
    pub known: bool,
}

impl View for Monster {
    type V = MonsterView;

    open spec fn view(&self) -> MonsterView {
        MonsterView {
            name: self.name@,
            level: self.level,
            experience: self.experience,
            hp: self.hp,
            ailment: self.ailment,
            stages: self.stages@,
            moves: self.moves@,
            learnset: self.learnset@,
            known: self.known,
        }
    }
}

pub open spec fn clamp_stage(v: int) -> i8 {
    if v < STAGE_MIN as int {
        STAGE_MIN
    } else if v > STAGE_MAX as int {
        STAGE_MAX
    } else {
        v as i8
    }
}

/// The moves of a learnset at the levels from `from` up to, not including, `to`:
/// the levels a monster passes through when it grows from `from` to `to`.
pub open spec fn learned_between(ls: Seq<Learnable>, from: u8, to: u8) -> Seq<u32>
    decreases ls.len(),
{
    if ls.len() == 0 {
        Seq::empty()
    } else {
        let rest = learned_between(ls.drop_last(), from, to);
        let l = ls.last();
        if from <= l.level && l.level < to {
            rest.push(l.move_id)
        } else {
            rest
        }
    }
}

/// New moves go straight into a move set with free slots, in order, as long
/// as slots are free; a move missing from the catalog is passed over. The
/// result is the move set and the moves that were not reached.
pub open spec fn auto_learn(moves: Seq<MoveSlot>, ids: Seq<u32>, cat: Catalog) -> (
    Seq<MoveSlot>,
    Seq<u32>,
)
    decreases ids.len(),
{
    if moves.len() >= MOVE_SLOTS || ids.len() == 0 {
        (moves, ids)
    } else {
        let next = match cat.move_spec(ids[0]) {
            Some(e) => moves.push(MoveSlot { move_id: ids[0], pp: e.pp }),
            None => moves,
        };
        auto_learn(next, ids.drop_first(), cat)
    }
}

/// The moves of the list that the catalog knows, in order.
pub open spec fn known_moves(ids: Seq<u32>, cat: Catalog) -> Seq<u32>
    decreases ids.len(),
{
    if ids.len() == 0 {
        Seq::empty()
    } else {
        let rest = known_moves(ids.drop_last(), cat);
        if cat.move_spec(ids.last()) is Some {
            rest.push(ids.last())
        } else {
            rest
        }
    }
}

pub open spec fn spent(s: MoveSlot, move_id: u32, cost: u8) -> MoveSlot {
    if s.move_id == move_id {
        MoveSlot { move_id: s.move_id, pp: if s.pp >= cost { (s.pp - cost) as u8 } else { 0 } }
    } else {
        s
    }
}

impl MonsterView {
    pub open spec fn fainted(self) -> bool {
        self.hp == 0
    }

    pub open spec fn with_hp(self, hp: u16) -> MonsterView {
        MonsterView { hp, ..self }
    }

    pub open spec fn with_ailment(self, a: u8) -> MonsterView {
        MonsterView { ailment: Some(a), ..self }
    }

    pub open spec fn with_progress(self, level: u8, experience: u32) -> MonsterView {
        MonsterView { level, experience, ..self }
    }

    /// A stage change on a stat that the monster does not track changes nothing.
    pub open spec fn with_stage_change(self, stat: u8, delta: i8) -> MonsterView {
        if (stat as int) < self.stages.len() {
            MonsterView {
                stages: self.stages.update(
                    stat as int,
                    clamp_stage(self.stages[stat as int] + delta),
                ),
                ..self
            }
        } else {
            self
        }
    }

    pub open spec fn with_pp_spent(self, move_id: u32, cost: u8) -> MonsterView {
        MonsterView { moves: self.moves.map_values(|s: MoveSlot| spent(s, move_id, cost)), ..self }
    }

    /// A learned move is appended while the move set has free slots; in a
    /// full set it takes the chosen slot, and a slot past the end changes nothing.
    pub open spec fn with_learned(self, slot: usize, s: MoveSlot) -> MonsterView {
        if self.moves.len() >= MOVE_SLOTS {
            if (slot as int) < self.moves.len() {
                MonsterView { moves: self.moves.update(slot as int, s), ..self }
            } else {
                self
            }
        } else {
            MonsterView { moves: self.moves.push(s), ..self }
        }
    }

    /// The moves of the levels gained from `self.level` to `level` that go
    /// straight into free slots are learned; the result is the monster and
    /// the moves left to offer, those the catalog knows.
    pub open spec fn grown_into(self, level: u8, cat: Catalog) -> (MonsterView, Seq<u32>) {
        let (moves, rest) = auto_learn(self.moves, learned_between(self.learnset, self.level, level), cat);
        (MonsterView { moves, ..self }, known_moves(rest, cat))
    }
}

impl Monster {
    pub fn fainted(&self) -> (r: bool)
        ensures
            r == self@.fainted(),
    {
        self.hp == 0
    }

    /// The moves this monster learns when going from level `from` to level `to`.
    pub fn moves_learned(&self, from: u8, to: u8) -> (r: Vec<u32>)
        ensures
            r@ == learned_between(self.learnset@, from, to),
    {
        let mut r: Vec<u32> = Vec::new();
        let mut i: usize = 0;
        while i < self.learnset.len()
            invariant
                i <= self.learnset@.len(),
                r@ == learned_between(self.learnset@.take(i as int), from, to),
            decreases self.learnset@.len() - i,
        {
            let l = self.learnset[i];
            assert(self.learnset@.take(i as int + 1).drop_last() =~= self.learnset@.take(i as int));
            if from <= l.level && l.level < to {
                r.push(l.move_id);
            }
            i += 1;
        }
        assert(self.learnset@.take(i as int) =~= self.learnset@);
        r
    }

    pub fn change_stage(&mut self, stat: u8, delta: i8)
        ensures
            final(self)@ == old(self)@.with_stage_change(stat, delta),
    {
        if (stat as usize) < self.stages.len() {
            let v: i16 = self.stages[stat as usize] as i16 + delta as i16;
            let c: i8 = if v < STAGE_MIN as i16 {
                STAGE_MIN
            } else if v > STAGE_MAX as i16 {
                STAGE_MAX
            } else {
                v as i8
            };
            self.stages.set(stat as usize, c);
        }
        assert(self@.stages =~= old(self)@.with_stage_change(stat, delta).stages);
    }

    pub fn decrement_pp(&mut self, move_id: u32, cost: u8)
        ensures
            final(self)@ == old(self)@.with_pp_spent(move_id, cost),
    {
        let ghost start = self.moves@;
        let mut i: usize = 0;
        while i < self.moves.len()
            invariant
                i <= self.moves@.len(),
                self.moves@.len() == start.len(),
                self.name@ == old(self).name@,
                self.level == old(self).level,
                self.experience == old(self).experience,
                self.hp == old(self).hp,
                self.ailment == old(self).ailment,
                self.stages@ == old(self).stages@,
                self.learnset@ == old(self).learnset@,
                self.known == old(self).known,
                start == old(self).moves@,
                forall|k: int| 0 <= k < i ==> self.moves@[k] == spent(start[k], move_id, cost),
                forall|k: int| i <= k < start.len() ==> self.moves@[k] == start[k],
            decreases start.len() - i,
        {
            let s = self.moves[i];
            if s.move_id == move_id {
                let pp: u8 = if s.pp >= cost { s.pp - cost } else { 0 };
                self.moves.set(i, MoveSlot { move_id, pp });
            }
            i += 1;
        }
        assert(self@.moves =~= old(self)@.with_pp_spent(move_id, cost).moves);
    }

    pub fn learn(&mut self, slot: usize, s: MoveSlot)
        ensures
            final(self)@ == old(self)@.with_learned(slot, s),
    {
        if self.moves.len() >= MOVE_SLOTS {
            if slot < self.moves.len() {
                self.moves.set(slot, s);
            }
        } else {
            self.moves.push(s);
        }
    }

    /// Grows towards `level`: the new moves fill free slots first, and the
    /// moves left over that the catalog knows are returned, to be offered.
    pub fn learn_new_moves(&mut self, level: u8, cat: &Catalog) -> (offered: Vec<u32>)
        ensures
            (final(self)@, offered@) == old(self)@.grown_into(level, *cat),
    {
        let ids = self.moves_learned(self.level, level);
        let ghost start = self.moves@;
        let mut i: usize = 0;
        assert(ids@.subrange(0, ids@.len() as int) =~= ids@);
        while self.moves.len() < MOVE_SLOTS && i < ids.len()
            invariant
                i <= ids@.len(),
                auto_learn(start, ids@, *cat) == auto_learn(
                    self.moves@,
                    ids@.subrange(i as int, ids@.len() as int),
                    *cat,
                ),
                self.name@ == old(self).name@,
                self.level == old(self).level,
                self.experience == old(self).experience,
                self.hp == old(self).hp,
                self.ailment == old(self).ailment,
                self.stages@ == old(self).stages@,
                self.learnset@ == old(self).learnset@,
                self.known == old(self).known,
                start == old(self).moves@,
            decreases ids@.len() - i,
        {
            let ghost rest = ids@.subrange(i as int, ids@.len() as int);
            assert(rest.drop_first() =~= ids@.subrange(i as int + 1, ids@.len() as int));
            let id = ids[i];
            if let Some(e) = cat.find_move(id) {
                self.moves.push(MoveSlot { move_id: id, pp: e.pp });
            }
            i += 1;
        }
        let ghost rest = ids@.subrange(i as int, ids@.len() as int);
        assert(auto_learn(self.moves@, rest, *cat) == (self.moves@, rest));
        let mut offered: Vec<u32> = Vec::new();
        let mut k: usize = i;
        while k < ids.len()
            invariant
                i <= k <= ids@.len(),
                rest == ids@.subrange(i as int, ids@.len() as int),
                offered@ == known_moves(rest.take(k - i), *cat),
            decreases ids@.len() - k,
        {
            assert(rest.take(k - i + 1).drop_last() =~= rest.take(k - i));
            assert(rest.take(k - i + 1).last() == ids@[k as int]);
            let id = ids[k];
            if cat.find_move(id).is_some() {
                offered.push(id);
            }
            k += 1;
        }
        assert(rest.take(k - i) =~= rest);
        offered
    }
}

/// What the viewer shows of one active slot: the running animations, each as a
/// number of steps left, and the party member whose sprite and status are shown.
#[derive(Clone, Copy, Debug, PartialEq, Eq, Structural)]
pub struct SlotVisual {
    pub flicker: u32,
    pub hp_bar: u32,
    pub exp_bar: u32,
    pub fainting: u32,
    pub shown: Option<usize>,
}

} // verus!
