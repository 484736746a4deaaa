use vstd::prelude::*;
use std::collections::VecDeque;
use crate::action::{
    ActorRef, BattleClientGuiAction, BattleClientGuiCurrent, Effect, InProgressAction, LearnStage,
    PendingAction, TargetOutcome,
};
use crate::catalog::{Catalog, ItemUsage};
use crate::drain::{all_calm, calm_current, drive, frames_left, frame_go, lemma_calm_tick, lemma_drive};
use crate::directory::{
    directory_entries, directory_get, directory_insert, directory_new, TeamDirectory,
};
use crate::model::{
    advance_spec, apply_effect, apply_effects, apply_outcomes, dispatch_spec, faint_of, has_faint,
    hp_stepped, locations, next_action, offer_next, popped, shown_visual, step_targets, turn_tick,
    Choice, ClientMessage, FrameInput, Model, BAR_STEPS, FAINT_STEPS, FLICKER_STEPS,
};
use crate::roster::{Monster, MoveSlot, SlotVisual};
use crate::team::Team;
use crate::text::{MemberRef, TextBox, TextPage};

verus! {

/// The actions of the turn still to be played, and the one being animated.
pub struct MoveQueue {
    pub actions: VecDeque<PendingAction>,
    pub current: Option<InProgressAction>,
}

/// Where the battle screen stands.
#[derive(Clone, Copy, Debug, PartialEq, Eq, Structural)]
pub enum BattlePlayerState {
    WaitToStart,
    Opening,
    Introduction,
    WaitToSelect,
    /// Choosing the action of the given active slot.
    Select(usize),
    /// Playing out a turn.
    Moving,
    /// The battle is over; the winner's team, if any.
    Winner(Option<u64>),
}

/// A message from the battle authority.
pub enum ServerMessage {
    /// The player is to choose the actions of the next turn.
    Selecting,
    /// The resolved actions of a turn, in order.
    Turns(Vec<PendingAction>),
    /// An active slot is to be filled from the given party index.
    Replace(ActorRef, usize),
    /// What is now known of a member of an opposing party: the team and the
    /// party index, and the member.
    AddRemote(u64, usize, Monster),
}

/// The client side of a battle: the teams as the viewer knows them, the text
/// box, the turn queue and the messages waiting to go to the authority.
/// `teams[0]` is the local player's team.
pub struct BattlePlayerGui {
    pub teams: Vec<Team>,
    pub directory: TeamDirectory,
    pub text: TextBox,
    pub state: BattlePlayerState,
    pub queue: MoveQueue,
    pub outbox: Vec<ClientMessage>,
    pub catalog: Catalog,
    pub wild: bool,
    pub should_select: bool,
}

impl BattlePlayerGui {
    /// The directory maps each team's id to its position, and nothing else.
    pub open spec fn wf(&self) -> bool {
        &&& self.teams@.len() >= 1
        &&& forall|i: int|
            0 <= i < self.teams@.len() ==> {
                &&& directory_entries(self.directory).contains_key(#[trigger] self.teams@[i].id)
                &&& directory_entries(self.directory)[self.teams@[i].id] as int == i
            }
        &&& forall|k: u64|
            #[trigger] directory_entries(self.directory).contains_key(k) ==> {
                &&& (directory_entries(self.directory)[k] as int) < self.teams@.len()
                &&& self.teams@[directory_entries(self.directory)[k] as int].id == k
            }
    }

    pub open spec fn local_id(&self) -> u64 {
        self.teams@[0].id
    }

    pub open spec fn model(&self) -> Model {
        Model {
            teams: self.teams@.map_values(|t: Team| t@),
            pages: self.text.pages@,
            page: self.text.page as int,
            pending: self.queue.actions@.map_values(|a: PendingAction| a@),
            outbox: self.outbox@,
        }
    }

    /// The parts that a step of an action leaves alone.
    pub open spec fn same_frame(&self, other: &BattlePlayerGui) -> bool {
        &&& self.catalog == other.catalog
        &&& self.wild == other.wild
        &&& self.state == other.state
        &&& self.should_select == other.should_select
        &&& self.queue.current == other.queue.current
        &&& self.teams@.len() == other.teams@.len()
        &&& self.local_id() == other.local_id()
    }

    proof fn lemma_team_changed(a: BattlePlayerGui, b: BattlePlayerGui, p: int)
        requires
            a.wf(),
            0 <= p < a.teams@.len(),
            b.teams@ == a.teams@.update(p, b.teams@[p]),
            b.teams@[p].id == a.teams@[p].id,
            b.directory == a.directory,
        ensures
            b.wf(),
            b.model().teams == a.model().teams.update(p, b.teams@[p]@),
            b.local_id() == a.local_id(),
    {
        assert(b.model().teams =~= a.model().teams.update(p, b.teams@[p]@));
        assert forall|i: int| 0 <= i < b.teams@.len() implies b.teams@[i].id == a.teams@[i].id by {}
    }

    /// The position of the team with the given id.
    pub fn find_team(&self, id: u64) -> (r: Option<usize>)
        requires
            self.wf(),
        ensures
            r is Some <==> self.model().team_of(id) is Some,
            r is Some ==> r->0 as int == self.model().team_of(id)->0,
            r is Some ==> (r->0 as int) < self.teams@.len(),
    {
        let r = directory_get(&self.directory, id);
        proof {
            let m = self.model();
            match r {
                Some(p) => {
                    assert(m.teams[p as int].id == id);
                    let c = choose|i: int| 0 <= i < m.teams.len() && #[trigger] m.teams[i].id == id;
                    assert(m.teams[c].id == self.teams@[c].id);
                }
                None => {
                    assert forall|i: int| 0 <= i < m.teams.len() implies #[trigger] m.teams[i].id != id by {
                        assert(m.teams[i].id == self.teams@[i].id);
                    }
                }
            }
        }
        r
    }

    /// The team position and party index of the monster standing in a slot.
    pub fn member(&self, r: ActorRef) -> (res: Option<(usize, usize)>)
        requires
            self.wf(),
        ensures
            match res {
                Some((p, j)) => {
                    &&& self.model().member(r) == Some((p as int, j as int))
                    &&& (p as int) < self.teams@.len()
                    &&& (j as int) < self.teams@[p as int].party@.len()
                },
                None => self.model().member(r) is None,
            },
    {
        match self.find_team(r.team) {
            Some(p) => match self.teams[p].member_at(r.slot) {
                Some(j) => Some((p, j)),
                None => None,
            },
            None => None,
        }
    }

    fn say(&mut self, pg: TextPage)
        ensures
            final(self).model() == old(self).model().say(pg),
            final(self).queue.actions@ == old(self).queue.actions@,
            final(self).teams == old(self).teams,
            final(self).directory == old(self).directory,
            final(self).same_frame(old(self)),
    {
        self.text.push(pg);
    }

    fn cascade(&mut self, a: PendingAction)
        ensures
            final(self).model() == old(self).model().cascade(a@),
            final(self).queue.actions@.len() == old(self).queue.actions@.len() + 1,
            final(self).teams == old(self).teams,
            final(self).directory == old(self).directory,
            final(self).same_frame(old(self)),
    {
        self.queue.actions.push_front(a);
        assert(self.model().pending =~= old(self).model().cascade(a@).pending);
    }

    /// Whether one of the entries ahead of the last `waiting` ones is a faint of `t`.
    fn faint_queued(&self, t: ActorRef, waiting: usize) -> (r: bool)
        requires
            waiting <= self.queue.actions@.len(),
        ensures
            r == has_faint(
                self.model().pending.take(self.model().pending.len() - waiting),
                t,
            ),
    {
        let ghost pend = self.model().pending;
        let ghost front = pend.take(pend.len() - waiting);
        let n = self.queue.actions.len() - waiting;
        let mut i: usize = 0;
        while i < n
            invariant
                i <= n,
                n == self.queue.actions@.len() - waiting,
                pend == self.model().pending,
                front == pend.take(pend.len() - waiting),
                forall|k: int| 0 <= k < i ==> pend[k] != faint_of(t),
            decreases n - i,
        {
            let a = &self.queue.actions[i];
            if a.actor == t {
                if let BattleClientGuiAction::Faint = a.kind {
                    assert(front[i as int] == faint_of(t));
                    return true;
                }
            }
            i += 1;
        }
        assert forall|k: int| 0 <= k < front.len() implies #[trigger] front[k] != faint_of(t) by {
            assert(front[k] == pend[k]);
        }
        false
    }

    fn queue_faint(&mut self, t: ActorRef, waiting: usize)
        requires
            waiting <= old(self).queue.actions@.len(),
        ensures
            final(self).model() == old(self).model().queue_faint(t, waiting as nat),
            final(self).queue.actions@.len() >= old(self).queue.actions@.len(),
            final(self).teams == old(self).teams,
            final(self).directory == old(self).directory,
            final(self).same_frame(old(self)),
    {
        if !self.faint_queued(t, waiting) {
            self.cascade(PendingAction { actor: t, kind: BattleClientGuiAction::Faint });
        }
    }

    /// Applies one effect of a move to the monster at `loc`.
    fn apply_effect(&mut self, loc: ActorRef, e: Effect, waiting: usize)
        requires
            old(self).wf(),
            waiting <= old(self).queue.actions@.len(),
        ensures
            final(self).wf(),
            final(self).model() == apply_effect(
                old(self).model(),
                loc,
                e,
                old(self).catalog,
                waiting as nat,
            ),
            final(self).queue.actions@.len() >= old(self).queue.actions@.len(),
            final(self).directory == old(self).directory,
            final(self).same_frame(old(self)),
    {
        if let Effect::FaintTrigger(t) = e {
            self.queue_faint(t, waiting);
            return;
        }
        let ghost a = *self;
        match self.member(loc) {
            None => {},
            Some((p, j)) => {
                let who = MemberRef { team: loc.team, member: j };
                assert(a.model().teams[p as int] == self.teams@[p as int]@);
                assert(a.model().teams[p as int].party[j as int] == self.teams@[p as int].party@[j as int]@);
                if self.teams[p].party[j].fainted() {
                    return;
                }
                match e {
                    Effect::SetHp(hp) => {
                        let vis = self.teams[p].visual(loc.slot);
                        self.teams[p].set_hp(j, hp);
                        proof {
                            Self::lemma_team_changed(a, *self, p as int);
                        }
                        if let Some(v) = vis {
                            let nv = SlotVisual {
                                flicker: if hp > 0 {
                                    FLICKER_STEPS
                                } else {
                                    v.flicker
                                },
                                hp_bar: BAR_STEPS,
                                exp_bar: v.exp_bar,
                                fainting: v.fainting,
                                shown: v.shown,
                            };
                            let ghost b = *self;
                            self.teams[p].set_visual(loc.slot, nv);
                            proof {
                                Self::lemma_team_changed(b, *self, p as int);
                            }
                        }
                        proof {
                            let t0 = a.model().teams[p as int];
                            let t1 = t0.with_member(j as int, t0.party[j as int].with_hp(hp)).with_visual(
                                loc.slot as int,
                                crate::model::hit_visual(t0.visuals[loc.slot as int], hp),
                            );
                            assert(self.teams@[p as int]@.party =~= t1.party);
                            assert(self.teams@[p as int]@.visuals =~= t1.visuals);
                            assert(self.teams@[p as int]@ == t1);
                            assert(self.model().teams =~= a.model().teams.update(p as int, t1));
                        }
                        if hp == 0 {
                            self.queue_faint(loc, waiting);
                        }
                    },
                    Effect::Miss => self.say(TextPage::Missed { target: who }),
                    Effect::Fail => self.say(TextPage::Failed { target: who }),
                    Effect::CriticalHit => self.say(TextPage::Critical),
                    Effect::Effectiveness(x) => self.say(TextPage::Effective(x)),
                    Effect::StatStageChange(stat, delta) => {
                        self.teams[p].change_stage(j, stat, delta);
                        proof {
                            Self::lemma_team_changed(a, *self, p as int);
                        }
                        self.say(TextPage::StatStage { target: who, stat, delta });
                    },
                    Effect::Ailment(x) => {
                        self.teams[p].set_ailment(j, x);
                        proof {
                            Self::lemma_team_changed(a, *self, p as int);
                        }
                        self.say(TextPage::Afflicted { target: who, ailment: x });
                    },
                    Effect::GainExp(experience, level) => {
                        if self.teams[p].party[j].known {
                            let previous = self.teams[p].party[j].level;
                            let ghost b = *self;
                            let moves = self.teams[p].learn_new_moves(j, level, &self.catalog);
                            proof {
                                Self::lemma_team_changed(b, *self, p as int);
                            }
                            self.cascade(
                                PendingAction {
                                    actor: loc,
                                    kind: BattleClientGuiAction::SetExp {
                                        previous_level: previous,
                                        new_experience: experience,
                                        new_level: level,
                                        learnable_moves: moves,
                                    },
                                },
                            );
                        }
                    },
                    Effect::FaintTrigger(_) => {},
                }
            },
        }
    }

    fn apply_effects(&mut self, loc: ActorRef, effects: &Vec<Effect>, waiting: usize)
        requires
            old(self).wf(),
            waiting <= old(self).queue.actions@.len(),
        ensures
            final(self).wf(),
            final(self).model() == apply_effects(
                old(self).model(),
                loc,
                effects@,
                old(self).catalog,
                waiting as nat,
            ),
            final(self).queue.actions@.len() >= old(self).queue.actions@.len(),
            final(self).directory == old(self).directory,
            final(self).same_frame(old(self)),
    {
        let ghost m0 = self.model();
        let mut i: usize = 0;
        assert(effects@.take(0) =~= Seq::<Effect>::empty());
        while i < effects.len()
            invariant
                self.wf(),
                i <= effects@.len(),
                self.model() == apply_effects(
                    m0,
                    loc,
                    effects@.take(i as int),
                    old(self).catalog,
                    waiting as nat,
                ),
                self.queue.actions@.len() >= old(self).queue.actions@.len(),
                waiting <= old(self).queue.actions@.len(),
                self.directory == old(self).directory,
                self.same_frame(old(self)),
            decreases effects@.len() - i,
        {
            assert(effects@.take(i as int + 1).drop_last() =~= effects@.take(i as int));
            self.apply_effect(loc, effects[i], waiting);
            i += 1;
        }
        assert(effects@.take(i as int) =~= effects@);
    }

    fn apply_outcomes(&mut self, outcomes: &Vec<TargetOutcome>, waiting: usize)
        requires
            old(self).wf(),
            waiting <= old(self).queue.actions@.len(),
        ensures
            final(self).wf(),
            final(self).queue.actions@.len() >= old(self).queue.actions@.len(),
            final(self).model() == apply_outcomes(
                old(self).model(),
                outcomes@.map_values(|o: TargetOutcome| o@),
                old(self).catalog,
                waiting as nat,
            ),
            final(self).directory == old(self).directory,
            final(self).same_frame(old(self)),
    {
        let ghost m0 = self.model();
        let ghost ov = outcomes@.map_values(|o: TargetOutcome| o@);
        let mut i: usize = 0;
        assert(ov.take(0) =~= Seq::<crate::action::OutcomeView>::empty());
        while i < outcomes.len()
            invariant
                self.wf(),
                i <= outcomes@.len(),
                ov == outcomes@.map_values(|o: TargetOutcome| o@),
                self.model() == apply_outcomes(m0, ov.take(i as int), old(self).catalog, waiting as nat),
                self.queue.actions@.len() >= old(self).queue.actions@.len(),
                waiting <= old(self).queue.actions@.len(),
                self.directory == old(self).directory,
                self.same_frame(old(self)),
            decreases outcomes@.len() - i,
        {
            assert(ov.take(i as int + 1).drop_last() =~= ov.take(i as int));
            assert(ov.take(i as int + 1).last() == outcomes@[i as int]@);
            self.apply_effects(outcomes[i].location, &outcomes[i].effects, waiting);
            i += 1;
        }
        assert(ov.take(i as int) =~= ov);
    }

    /// Starts an action: applies its immediate effects, writes its pages and
    /// queues its cascades at the front. `None` when the action shows nothing.
    pub fn dispatch(&mut self, a: PendingAction) -> (r: Option<BattleClientGuiCurrent>)
        requires
            old(self).wf(),
        ensures
            final(self).wf(),
            final(self).model() == dispatch_spec(
                old(self).model(),
                a@,
                old(self).catalog,
                old(self).local_id(),
                old(self).wild,
            ).0,
            match r {
                Some(c) => dispatch_spec(
                    old(self).model(),
                    a@,
                    old(self).catalog,
                    old(self).local_id(),
                    old(self).wild,
                ).1 == Some(c@),
                None => dispatch_spec(
                    old(self).model(),
                    a@,
                    old(self).catalog,
                    old(self).local_id(),
                    old(self).wild,
                ).1 is None,
            },
            final(self).directory == old(self).directory,
            final(self).same_frame(old(self)),
    {
        let ghost s0 = *self;
        let local = self.teams[0].id;
        let found = self.member(a.actor);
        if a.kind.requires_user() && found.is_none() {
            return None;
        }
        let actor = a.actor;
        let slot = actor.slot;
        match a.kind {
            BattleClientGuiAction::Move { move_id, pp_cost, outcomes } => {
                let (p, j) = match found {
                    Some(pj) => pj,
                    None => {
                        return None;
                    },
                };
                let who = MemberRef { team: actor.team, member: j };
                match self.catalog.find_move(move_id) {
                    None => {
                        self.say(TextPage::CannotUse { user: who, move_id });
                        let none: Vec<ActorRef> = Vec::new();
                        assert(none@ =~= Seq::<ActorRef>::empty());
                        Some(BattleClientGuiCurrent::Move(none))
                    },
                    Some(_) => {
                        self.teams[p].decrement_pp(j, move_id, pp_cost);
                        proof {
                            Self::lemma_team_changed(s0, *self, p as int);
                        }
                        self.say(TextPage::Used { user: who, move_id });
                        let waiting = self.queue.actions.len();
                        self.apply_outcomes(&outcomes, waiting);
                        let locs = outcome_locations(&outcomes);
                        Some(BattleClientGuiCurrent::Move(locs))
                    },
                }
            },
            BattleClientGuiAction::UseItem { item_id, target } => {
                match self.catalog.find_item(item_id) {
                    None => {
                        self.say(TextPage::ItemFailed { item_id });
                        Some(BattleClientGuiCurrent::UseItem(target))
                    },
                    Some(entry) => {
                        let tr: Option<ActorRef> = match entry.usage {
                            ItemUsage::Script | ItemUsage::Actions => Some(
                                ActorRef { team: actor.team, slot: target.slot },
                            ),
                            ItemUsage::Pokeball => if target.team != local {
                                Some(target)
                            } else {
                                None
                            },
                            ItemUsage::Unusable => None,
                        };
                        match tr {
                            Some(tr) => match self.member(tr) {
                                Some((_, j2)) => {
                                    if let ItemUsage::Pokeball = entry.usage {
                                        self.cascade(
                                            PendingAction {
                                                actor: tr,
                                                kind: BattleClientGuiAction::Catch,
                                            },
                                        );
                                    }
                                    self.say(
                                        TextPage::ItemUsed {
                                            item_id,
                                            target: MemberRef { team: tr.team, member: j2 },
                                        },
                                    );
                                    Some(BattleClientGuiCurrent::UseItem(target))
                                },
                                None => None,
                            },
                            None => None,
                        }
                    },
                }
            },
            BattleClientGuiAction::Switch(n) => {
                let (p, j) = match found {
                    Some(pj) => pj,
                    None => {
                        return None;
                    },
                };
                let coming = if n < self.teams[p].party.len() {
                    Some(MemberRef { team: actor.team, member: n })
                } else {
                    None
                };
                self.say(TextPage::ComeBack(Some(MemberRef { team: actor.team, member: j })));
                self.say(TextPage::Go(coming));
                Some(BattleClientGuiCurrent::Switch(n))
            },
            BattleClientGuiAction::Faint => {
                let (p, j) = match found {
                    Some(pj) => pj,
                    None => {
                        return None;
                    },
                };
                let vis = self.teams[p].visual(slot);
                self.teams[p].set_hp(j, 0);
                proof {
                    Self::lemma_team_changed(s0, *self, p as int);
                }
                if let Some(v) = vis {
                    let nv = SlotVisual {
                        flicker: v.flicker,
                        hp_bar: v.hp_bar,
                        exp_bar: v.exp_bar,
                        fainting: FAINT_STEPS,
                        shown: v.shown,
                    };
                    let ghost b = *self;
                    self.teams[p].set_visual(slot, nv);
                    proof {
                        Self::lemma_team_changed(b, *self, p as int);
                    }
                }
                proof {
                    let t0 = s0.model().teams[p as int];
                    let t1 = t0.with_member(j as int, t0.party[j as int].with_hp(0)).with_visual(
                        slot as int,
                        crate::model::faint_visual(t0.visuals[slot as int]),
                    );
                    assert(self.teams@[p as int]@.party =~= t1.party);
                    assert(self.teams@[p as int]@.visuals =~= t1.visuals);
                    assert(self.teams@[p as int]@ == t1);
                    assert(self.model().teams =~= s0.model().teams.update(p as int, t1));
                }
                self.say(
                    TextPage::Fainted {
                        who: MemberRef { team: actor.team, member: j },
                        is_player: actor.team == local,
                        is_wild: self.wild,
                    },
                );
                Some(BattleClientGuiCurrent::Faint(false))
            },
            BattleClientGuiAction::Catch => {
                let (p, j) = match found {
                    Some(pj) => pj,
                    None => {
                        return None;
                    },
                };
                if actor.team == local {
                    return None;
                }
                let vis = self.teams[p].visual(slot);
                self.teams[p].replace(slot, None);
                proof {
                    Self::lemma_team_changed(s0, *self, p as int);
                }
                if let Some(v) = vis {
                    let nv = SlotVisual {
                        flicker: v.flicker,
                        hp_bar: v.hp_bar,
                        exp_bar: v.exp_bar,
                        fainting: v.fainting,
                        shown: None,
                    };
                    let ghost b = *self;
                    self.teams[p].set_visual(slot, nv);
                    proof {
                        Self::lemma_team_changed(b, *self, p as int);
                    }
                }
                proof {
                    let t0 = s0.model().teams[p as int];
                    let t1 = t0.with_active(slot as int, None).with_visual(
                        slot as int,
                        crate::model::shown_visual(t0.visuals[slot as int], None),
                    );
                    assert(self.teams@[p as int]@.party =~= t1.party);
                    assert(self.teams@[p as int]@.active =~= t1.active);
                    assert(self.teams@[p as int]@.visuals =~= t1.visuals);
                    assert(self.teams@[p as int]@ == t1);
                    assert(self.model().teams =~= s0.model().teams.update(p as int, t1));
                }
                self.say(TextPage::Caught { who: MemberRef { team: actor.team, member: j } });
                Some(BattleClientGuiCurrent::Catch)
            },
            BattleClientGuiAction::Replace(new) => {
                match self.find_team(actor.team) {
                    Some(p) => {
                        if let Some(n) = new {
                            if n < self.teams[p].party.len() {
                                self.say(TextPage::SentOut { team: actor.team, member: n });
                            }
                        }
                        Some(BattleClientGuiCurrent::Replace(new, false))
                    },
                    None => None,
                }
            },
            BattleClientGuiAction::SetExp {
                previous_level,
                new_experience,
                new_level,
                learnable_moves,
            } => {
                let (p, j) = match found {
                    Some(pj) => pj,
                    None => {
                        return None;
                    },
                };
                let vis = self.teams[p].visual(slot);
                self.teams[p].set_progress(j, new_level, new_experience);
                proof {
                    Self::lemma_team_changed(s0, *self, p as int);
                }
                if let Some(v) = vis {
                    let nv = SlotVisual {
                        flicker: v.flicker,
                        hp_bar: v.hp_bar,
                        exp_bar: BAR_STEPS,
                        fainting: v.fainting,
                        shown: v.shown,
                    };
                    let ghost b = *self;
                    self.teams[p].set_visual(slot, nv);
                    proof {
                        Self::lemma_team_changed(b, *self, p as int);
                    }
                }
                proof {
                    let t0 = s0.model().teams[p as int];
                    let t1 = t0.with_member(
                        j as int,
                        t0.party[j as int].with_progress(new_level, new_experience),
                    ).with_visual(slot as int, crate::model::exp_visual(t0.visuals[slot as int]));
                    assert(self.teams@[p as int]@.party =~= t1.party);
                    assert(self.teams@[p as int]@.visuals =~= t1.visuals);
                    assert(self.teams@[p as int]@ == t1);
                    assert(self.model().teams =~= s0.model().teams.update(p as int, t1));
                }
                self.say(
                    TextPage::GainedExp {
                        who: MemberRef { team: actor.team, member: j },
                        experience: new_experience,
                        level: new_level,
                    },
                );
                self.cascade(
                    PendingAction { actor, kind: BattleClientGuiAction::LevelUp(learnable_moves) },
                );
                Some(BattleClientGuiCurrent::SetExp)
            },
            BattleClientGuiAction::LevelUp(moves) => {
                let (_, j) = match found {
                    Some(pj) => pj,
                    None => {
                        return None;
                    },
                };
                if moves.len() > 0 {
                    self.say(
                        TextPage::TryingToLearn {
                            who: MemberRef { team: actor.team, member: j },
                            move_id: moves[0],
                        },
                    );
                    Some(BattleClientGuiCurrent::LevelUp(moves, LearnStage::Prompt))
                } else {
                    None
                }
            },
        }
    }

    /// Pops queued actions until one shows something, which becomes the
    /// current action, or until the queue is empty.
    pub fn start_next(&mut self)
        requires
            old(self).wf(),
            old(self).queue.current is None,
        ensures
            final(self).wf(),
            final(self).model() == next_action(
                old(self).model(),
                old(self).catalog,
                old(self).local_id(),
                old(self).wild,
                old(self).model().pending.len(),
            ).0,
            match final(self).queue.current {
                Some(c) => next_action(
                    old(self).model(),
                    old(self).catalog,
                    old(self).local_id(),
                    old(self).wild,
                    old(self).model().pending.len(),
                ).1 == Some(c@),
                None => next_action(
                    old(self).model(),
                    old(self).catalog,
                    old(self).local_id(),
                    old(self).wild,
                    old(self).model().pending.len(),
                ).1 is None && final(self).model().pending.len() == 0,
            },
            final(self).directory == old(self).directory,
            final(self).catalog == old(self).catalog,
            final(self).wild == old(self).wild,
            final(self).state == old(self).state,
            final(self).should_select == old(self).should_select,
            final(self).local_id() == old(self).local_id(),
            final(self).teams@.len() == old(self).teams@.len(),
    {
        let ghost cat = self.catalog;
        let ghost local = self.local_id();
        let ghost wild = self.wild;
        let ghost goal = next_action(self.model(), cat, local, wild, self.model().pending.len());
        loop
            invariant
                self.wf(),
                self.queue.current is None,
                goal == next_action(self.model(), cat, local, wild, self.model().pending.len()),
                goal == next_action(
                    old(self).model(),
                    old(self).catalog,
                    old(self).local_id(),
                    old(self).wild,
                    old(self).model().pending.len(),
                ),
                cat == old(self).catalog,
                local == old(self).local_id(),
                wild == old(self).wild,
                self.directory == old(self).directory,
                self.catalog == cat,
                self.wild == wild,
                self.state == old(self).state,
                self.should_select == old(self).should_select,
                self.local_id() == local,
                self.teams@.len() == old(self).teams@.len(),
            decreases self.queue.actions@.len(),
        {
            let ghost m = self.model();
            match self.queue.actions.pop_front() {
                None => {
                    assert(goal == (m, None::<crate::action::InProgressView>));
                    return;
                },
                Some(a) => {
                    let actor = a.actor;
                    assert(a@ == m.pending[0]);
                    self.text.clear();
                    assert(self.model().pending =~= m.pending.drop_first());
                    assert(self.model().pages =~= Seq::<TextPage>::empty());
                    assert(self.model() == popped(m));
                    match self.dispatch(a) {
                        Some(c) => {
                            self.queue.current = Some(InProgressAction { actor, current: c });
                            return;
                        },
                        None => {
                            assert(self.model() == popped(m));
                        },
                    }
                },
            }
        }
    }

    fn text_step(&mut self, advance: bool)
        ensures
            final(self).model() == old(self).model().text_step(advance),
            final(self).teams == old(self).teams,
            final(self).directory == old(self).directory,
            final(self).same_frame(old(self)),
    {
        if advance {
            self.text.advance();
        }
    }

    fn visual_at(&self, r: ActorRef) -> (v: Option<SlotVisual>)
        requires
            self.wf(),
        ensures
            v == self.model().visual(r),
    {
        match self.find_team(r.team) {
            Some(p) => self.teams[p].visual(r.slot),
            None => None,
        }
    }

    fn set_visual_at(&mut self, r: ActorRef, v: SlotVisual)
        requires
            old(self).wf(),
        ensures
            final(self).wf(),
            final(self).model() == old(self).model().set_visual(r, v),
            final(self).directory == old(self).directory,
            final(self).same_frame(old(self)),
    {
        match self.find_team(r.team) {
            Some(p) => {
                let ghost a = *self;
                self.teams[p].set_visual(r.slot, v);
                proof {
                    Self::lemma_team_changed(a, *self, p as int);
                }
            },
            None => {},
        }
    }

    /// The slot now holds `new`, and its visual shows it.
    fn swap_in(&mut self, r: ActorRef, new: Option<usize>)
        requires
            old(self).wf(),
        ensures
            final(self).wf(),
            final(self).model() == old(self).model().swap_in(r, new),
            final(self).directory == old(self).directory,
            final(self).same_frame(old(self)),
    {
        let ghost s0 = *self;
        match self.find_team(r.team) {
            Some(p) => {
                let vis = self.teams[p].visual(r.slot);
                self.teams[p].replace(r.slot, new);
                proof {
                    Self::lemma_team_changed(s0, *self, p as int);
                }
                if let Some(v) = vis {
                    let nv = SlotVisual {
                        flicker: v.flicker,
                        hp_bar: v.hp_bar,
                        exp_bar: v.exp_bar,
                        fainting: v.fainting,
                        shown: new,
                    };
                    let ghost b = *self;
                    self.teams[p].set_visual(r.slot, nv);
                    proof {
                        Self::lemma_team_changed(b, *self, p as int);
                    }
                }
                proof {
                    let t0 = s0.model().teams[p as int];
                    let t1 = t0.with_active(r.slot as int, new).with_visual(
                        r.slot as int,
                        shown_visual(t0.visuals[r.slot as int], new),
                    );
                    assert(self.teams@[p as int]@.party =~= t1.party);
                    assert(self.teams@[p as int]@.active =~= t1.active);
                    assert(self.teams@[p as int]@.visuals =~= t1.visuals);
                    assert(self.teams@[p as int]@ == t1);
                    assert(self.model().teams =~= s0.model().teams.update(p as int, t1));
                }
            },
            None => {},
        }
    }

    fn send(&mut self, msg: ClientMessage)
        ensures
            final(self).model() == old(self).model().send(msg),
            final(self).teams == old(self).teams,
            final(self).directory == old(self).directory,
            final(self).same_frame(old(self)),
    {
        self.outbox.push(msg);
    }

    fn step_targets(&mut self, ts: &Vec<ActorRef>) -> (kept: Vec<ActorRef>)
        requires
            old(self).wf(),
        ensures
            final(self).wf(),
            (final(self).model(), kept@) == step_targets(old(self).model(), ts@),
            final(self).directory == old(self).directory,
            final(self).same_frame(old(self)),
    {
        let ghost m0 = self.model();
        let mut kept: Vec<ActorRef> = Vec::new();
        let mut i: usize = 0;
        assert(ts@.take(0) =~= Seq::<ActorRef>::empty());
        assert(kept@ =~= Seq::<ActorRef>::empty());
        while i < ts.len()
            invariant
                self.wf(),
                i <= ts@.len(),
                (self.model(), kept@) == step_targets(m0, ts@.take(i as int)),
                self.directory == old(self).directory,
                self.same_frame(old(self)),
            decreases ts@.len() - i,
        {
            assert(ts@.take(i as int + 1).drop_last() =~= ts@.take(i as int));
            let t = ts[i];
            match self.visual_at(t) {
                Some(v) => {
                    if v.flicker > 0 || v.hp_bar > 0 {
                        let nv = SlotVisual {
                            flicker: if v.flicker > 0 {
                                v.flicker - 1
                            } else {
                                0
                            },
                            hp_bar: if v.hp_bar > 0 {
                                v.hp_bar - 1
                            } else {
                                0
                            },
                            exp_bar: v.exp_bar,
                            fainting: v.fainting,
                            shown: v.shown,
                        };
                        assert(nv == hp_stepped(v));
                        self.set_visual_at(t, nv);
                        kept.push(t);
                    }
                },
                None => {},
            }
            i += 1;
        }
        assert(ts@.take(i as int) =~= ts@);
        kept
    }

    /// After a move was learned or declined: offer the next one, or finish.
    fn offer_next(&mut self, who: MemberRef, rest: Vec<u32>) -> (r: Option<BattleClientGuiCurrent>)
        ensures
            final(self).model() == offer_next(old(self).model(), who, rest@).0,
            match r {
                Some(c) => offer_next(old(self).model(), who, rest@).1 == Some(c@),
                None => offer_next(old(self).model(), who, rest@).1 is None,
            },
            final(self).teams == old(self).teams,
            final(self).directory == old(self).directory,
            final(self).same_frame(old(self)),
    {
        if rest.len() == 0 {
            None
        } else {
            self.say(TextPage::TryingToLearn { who, move_id: rest[0] });
            Some(BattleClientGuiCurrent::LevelUp(rest, LearnStage::Prompt))
        }
    }

    /// One frame of the action being animated; `None` once it has completed.
    pub fn advance(&mut self, cur: InProgressAction, input: &FrameInput) -> (r: Option<
        BattleClientGuiCurrent,
    >)
        requires
            old(self).wf(),
        ensures
            final(self).wf(),
            final(self).model() == advance_spec(
                old(self).model(),
                cur@,
                *input,
                old(self).catalog,
                old(self).local_id(),
            ).0,
            match r {
                Some(c) => advance_spec(
                    old(self).model(),
                    cur@,
                    *input,
                    old(self).catalog,
                    old(self).local_id(),
                ).1 == Some(c@),
                None => advance_spec(
                    old(self).model(),
                    cur@,
                    *input,
                    old(self).catalog,
                    old(self).local_id(),
                ).1 is None,
            },
            final(self).directory == old(self).directory,
            final(self).same_frame(old(self)),
    {
        let ghost s0 = *self;
        let local = self.teams[0].id;
        let r = cur.actor;
        let p = match self.find_team(r.team) {
            Some(p) => p,
            None => {
                return None;
            },
        };
        match cur.current {
            BattleClientGuiCurrent::Move(targets) => {
                self.text_step(input.advance_text);
                let kept = self.step_targets(&targets);
                if self.text.page >= 1 && kept.len() == 0 {
                    None
                } else {
                    Some(BattleClientGuiCurrent::Move(kept))
                }
            },
            BattleClientGuiCurrent::Switch(n) => {
                if self.text.finished() {
                    return None;
                }
                let already = r.slot < self.teams[p].active.len() && self.teams[p].active[r.slot]
                    == Some(n);
                self.text_step(input.advance_text);
                if self.text.page == 1 && !already {
                    self.swap_in(r, Some(n));
                }
                Some(BattleClientGuiCurrent::Switch(n))
            },
            BattleClientGuiCurrent::UseItem(target) => {
                if !self.text.finished() {
                    self.text_step(input.advance_text);
                    return Some(BattleClientGuiCurrent::UseItem(target));
                }
                match self.visual_at(target) {
                    Some(v) => if v.hp_bar > 0 {
                        let nv = SlotVisual {
                            flicker: if v.flicker > 0 {
                                v.flicker - 1
                            } else {
                                0
                            },
                            hp_bar: v.hp_bar - 1,
                            exp_bar: v.exp_bar,
                            fainting: v.fainting,
                            shown: v.shown,
                        };
                        self.set_visual_at(target, nv);
                        Some(BattleClientGuiCurrent::UseItem(target))
                    } else {
                        None
                    },
                    None => None,
                }
            },
            BattleClientGuiCurrent::Faint(opened) => {
                let vis = self.visual_at(r);
                if let Some(v) = vis {
                    if v.fainting > 0 {
                        let nv = SlotVisual {
                            flicker: v.flicker,
                            hp_bar: v.hp_bar,
                            exp_bar: v.exp_bar,
                            fainting: v.fainting - 1,
                            shown: v.shown,
                        };
                        self.set_visual_at(r, nv);
                        return Some(BattleClientGuiCurrent::Faint(opened));
                    }
                }
                if !self.text.finished() {
                    self.text_step(input.advance_text);
                    return Some(BattleClientGuiCurrent::Faint(opened));
                }
                if r.team == local && self.teams[p].any_inactive() {
                    if !opened {
                        return Some(BattleClientGuiCurrent::Faint(true));
                    }
                    match input.choice {
                        Some(Choice::Party(k)) => {
                            if k < self.teams[p].party.len() && !self.teams[p].party[k].fainted()
                                && !self.teams[p].active_contains(k) {
                                self.swap_in(r, Some(k));
                                self.send(ClientMessage::ReplaceFaint(r.slot, k));
                                None
                            } else {
                                Some(BattleClientGuiCurrent::Faint(true))
                            }
                        },
                        Some(Choice::NoReplacement) => {
                            self.swap_in(r, None);
                            None
                        },
                        _ => Some(BattleClientGuiCurrent::Faint(true)),
                    }
                } else {
                    self.swap_in(r, None);
                    None
                }
            },
            BattleClientGuiCurrent::Catch => {
                if self.text.finished() {
                    None
                } else {
                    self.text_step(input.advance_text);
                    Some(BattleClientGuiCurrent::Catch)
                }
            },
            BattleClientGuiCurrent::Replace(new, replaced) => {
                if self.text.finished() {
                    if !replaced {
                        self.swap_in(r, new);
                    }
                    None
                } else {
                    self.text_step(input.advance_text);
                    if !replaced && self.text.page >= 1 {
                        self.swap_in(r, new);
                        Some(BattleClientGuiCurrent::Replace(new, true))
                    } else {
                        Some(BattleClientGuiCurrent::Replace(new, replaced))
                    }
                }
            },
            BattleClientGuiCurrent::SetExp => {
                if self.member(r).is_none() {
                    return None;
                }
                let moving = match self.visual_at(r) {
                    Some(v) => v.exp_bar > 0,
                    None => false,
                };
                if !self.text.finished() || moving {
                    self.text_step(input.advance_text);
                    if let Some(v) = self.visual_at(r) {
                        let nv = SlotVisual {
                            flicker: v.flicker,
                            hp_bar: v.hp_bar,
                            exp_bar: if v.exp_bar > 0 {
                                v.exp_bar - 1
                            } else {
                                0
                            },
                            fainting: v.fainting,
                            shown: v.shown,
                        };
                        self.set_visual_at(r, nv);
                    }
                    Some(BattleClientGuiCurrent::SetExp)
                } else {
                    None
                }
            },
            BattleClientGuiCurrent::LevelUp(moves, stage) => {
                let j = match self.member(r) {
                    Some((_, j)) => j,
                    None => {
                        return None;
                    },
                };
                if moves.len() == 0 {
                    return None;
                }
                let who = MemberRef { team: r.team, member: j };
                match stage {
                    LearnStage::Prompt => {
                        self.text_step(input.advance_text);
                        if self.text.finished() {
                            Some(BattleClientGuiCurrent::LevelUp(moves, LearnStage::Choosing))
                        } else {
                            Some(BattleClientGuiCurrent::LevelUp(moves, LearnStage::Prompt))
                        }
                    },
                    LearnStage::Choosing => match input.choice {
                        Some(Choice::Learn(slot)) => {
                            let mv = moves[0];
                            if let Some(e) = self.catalog.find_move(mv) {
                                self.teams[p].learn(j, slot, MoveSlot { move_id: mv, pp: e.pp });
                                proof {
                                    Self::lemma_team_changed(s0, *self, p as int);
                                }
                            }
                            self.send(ClientMessage::LearnMove(j, mv, slot));
                            let mut rest = moves;
                            rest.remove(0);
                            self.offer_next(who, rest)
                        },
                        Some(Choice::Decline) => {
                            let mut rest = moves;
                            rest.remove(0);
                            self.offer_next(who, rest)
                        },
                        _ => Some(BattleClientGuiCurrent::LevelUp(moves, LearnStage::Choosing)),
                    },
                }
            },
        }
    }

    pub open spec fn current_view(&self) -> Option<crate::action::InProgressView> {
        match self.queue.current {
            Some(c) => Some(c@),
            None => None,
        }
    }

    /// A battle between the given teams, the local player's first; their ids
    /// are distinct.
    pub fn new(teams: Vec<Team>, catalog: Catalog, wild: bool) -> (r: BattlePlayerGui)
        requires
            teams@.len() >= 1,
            forall|i: int, k: int|
                0 <= i < teams@.len() && 0 <= k < teams@.len() && teams@[i].id == teams@[k].id
                    ==> i == k,
        ensures
            r.wf(),
            r.teams@ == teams@,
            r.catalog == catalog,
            r.wild == wild,
            r.state == BattlePlayerState::WaitToStart,
            r.model().pending.len() == 0,
            r.model().pages.len() == 0,
            r.model().outbox.len() == 0,
            r.queue.current is None,
            !r.should_select,
    {
        let mut directory = directory_new();
        let mut i: usize = 0;
        while i < teams.len()
            invariant
                i <= teams@.len(),
                forall|q: int|
                    0 <= q < i ==> {
                        &&& directory_entries(directory).contains_key(#[trigger] teams@[q].id)
                        &&& directory_entries(directory)[teams@[q].id] as int == q
                    },
                forall|k: u64|
                    #[trigger] directory_entries(directory).contains_key(k) ==> {
                        &&& (directory_entries(directory)[k] as int) < i
                        &&& teams@[directory_entries(directory)[k] as int].id == k
                    },
                forall|q: int, k: int|
                    0 <= q < teams@.len() && 0 <= k < teams@.len() && teams@[q].id == teams@[k].id
                        ==> q == k,
            decreases teams@.len() - i,
        {
            directory_insert(&mut directory, teams[i].id, i);
            i += 1;
        }
        let r = BattlePlayerGui {
            teams,
            directory,
            text: TextBox::new(),
            state: BattlePlayerState::WaitToStart,
            queue: MoveQueue { actions: VecDeque::new(), current: None },
            outbox: Vec::new(),
            catalog,
            wild,
            should_select: false,
        };
        assert(r.model().pending =~= Seq::<crate::action::PendingView>::empty());
        r
    }

    /// The battle has begun, with or without its opening animation.
    pub fn start(&mut self, transition: bool)
        ensures
            final(self).state == (if transition {
                BattlePlayerState::Opening
            } else {
                BattlePlayerState::WaitToSelect
            }),
            final(self).model() == old(self).model(),
            final(self).teams == old(self).teams,
            final(self).directory == old(self).directory,
            final(self).queue.current == old(self).queue.current,
            final(self).should_select == old(self).should_select,
            final(self).catalog == old(self).catalog,
            final(self).wild == old(self).wild,
    {
        self.state = if transition {
            BattlePlayerState::Opening
        } else {
            BattlePlayerState::WaitToSelect
        };
    }

    /// The battle is past its opening and introduction.
    pub fn battling(&self) -> (r: bool)
        ensures
            r == !(self.state is WaitToStart || self.state is Opening || self.state is Introduction),
    {
        match self.state {
            BattlePlayerState::WaitToStart | BattlePlayerState::Opening
            | BattlePlayerState::Introduction => false,
            _ => true,
        }
    }

    /// The winner, once the battle is over.
    pub fn winner(&self) -> (r: Option<Option<u64>>)
        ensures
            r == (match self.state {
                BattlePlayerState::Winner(w) => Some(w),
                _ => None,
            }),
    {
        match self.state {
            BattlePlayerState::Winner(w) => Some(w),
            _ => None,
        }
    }

    /// The messages for the authority, oldest first; the outbox is emptied.
    pub fn take_messages(&mut self) -> (r: Vec<ClientMessage>)
        ensures
            r@ == old(self).outbox@,
            final(self).outbox@.len() == 0,
            final(self).teams == old(self).teams,
            final(self).directory == old(self).directory,
            final(self).same_frame(old(self)),
    {
        let mut r: Vec<ClientMessage> = Vec::new();
        std::mem::swap(&mut r, &mut self.outbox);
        r
    }

    /// One frame of a turn being played out.
    fn tick_turn(&mut self, input: &FrameInput)
        requires
            old(self).wf(),
            old(self).state == BattlePlayerState::Moving,
        ensures
            final(self).wf(),
            ({
                let (m, c, going) = turn_tick(
                    old(self).model(),
                    old(self).current_view(),
                    *input,
                    old(self).catalog,
                    old(self).local_id(),
                    old(self).wild,
                );
                &&& final(self).model() == m
                &&& final(self).current_view() == c
                &&& final(self).state == (if going {
                    BattlePlayerState::Moving
                } else {
                    BattlePlayerState::WaitToSelect
                })
            }),
            final(self).directory == old(self).directory,
            final(self).catalog == old(self).catalog,
            final(self).wild == old(self).wild,
            final(self).should_select == old(self).should_select,
            final(self).local_id() == old(self).local_id(),
    {
        match self.queue.current.take() {
            None => {
                self.start_next();
                if self.queue.current.is_none() {
                    self.send(ClientMessage::FinishedTurnQueue);
                    self.state = BattlePlayerState::WaitToSelect;
                }
            },
            Some(cur) => {
                let actor = cur.actor;
                match self.advance(cur, input) {
                    Some(c) => {
                        self.queue.current = Some(InProgressAction { actor, current: c });
                    },
                    None => {},
                }
            },
        }
    }

    /// One frame of the battle screen.
    pub fn update(&mut self, input: &FrameInput)
        requires
            old(self).wf(),
        ensures
            final(self).wf(),
            final(self).catalog == old(self).catalog,
            final(self).wild == old(self).wild,
            final(self).local_id() == old(self).local_id(),
            old(self).state == BattlePlayerState::Moving ==> ({
                let (m, c, going) = turn_tick(
                    old(self).model(),
                    old(self).current_view(),
                    *input,
                    old(self).catalog,
                    old(self).local_id(),
                    old(self).wild,
                );
                &&& final(self).model() == m
                &&& final(self).current_view() == c
                &&& final(self).state == (if going {
                    BattlePlayerState::Moving
                } else {
                    BattlePlayerState::WaitToSelect
                })
            }),
            old(self).state != BattlePlayerState::Moving ==> final(self).model().teams == old(self).model().teams && final(self).model().pending == old(self).model().pending
                && final(self).current_view() == old(self).current_view(),
            (old(self).state is WaitToStart || old(self).state is Winner) ==> final(self).state
                == old(self).state && final(self).model() == old(self).model(),
            old(self).state == BattlePlayerState::Opening ==> final(self).state == (if input.transition_done {
                BattlePlayerState::Introduction
            } else {
                BattlePlayerState::Opening
            }),
            old(self).state == BattlePlayerState::Introduction ==> final(self).state == (
            if input.transition_done {
                BattlePlayerState::WaitToSelect
            } else {
                BattlePlayerState::Introduction
            }),
            old(self).state == BattlePlayerState::WaitToSelect ==> final(self).state == (
            if old(self).should_select {
                BattlePlayerState::Select(0)
            } else {
                BattlePlayerState::WaitToSelect
            }) && !final(self).should_select,
            forall|i: usize|
                old(self).state == BattlePlayerState::Select(i) ==> {
                    let local = old(self).model().teams[0];
                    if input.forfeit && old(self).wild {
                        final(self).state == old(self).state && final(self).model().outbox
                            == old(self).model().outbox.push(ClientMessage::Forfeit)
                    } else if (i as int) >= local.active.len() {
                        final(self).state == old(self).state && final(self).model().outbox
                            == old(self).model().outbox
                    } else if local.member_at(i as int) is None {
                        final(self).state == BattlePlayerState::Select((i + 1) as usize)
                            && final(self).model().outbox == old(self).model().outbox
                    } else {
                        match input.selection {
                            Some(mv) => final(self).state == BattlePlayerState::Select(
                                (i + 1) as usize,
                            ) && final(self).model().outbox == old(self).model().outbox.push(
                                ClientMessage::Move(i, mv),
                            ),
                            None => final(self).state == old(self).state && final(self).model().outbox == old(self).model().outbox,
                        }
                    }
                },
    {
        match self.state {
            BattlePlayerState::WaitToStart | BattlePlayerState::Winner(_) => {},
            BattlePlayerState::Opening => {
                if input.transition_done {
                    self.state = BattlePlayerState::Introduction;
                }
            },
            BattlePlayerState::Introduction => {
                if input.transition_done {
                    self.state = BattlePlayerState::WaitToSelect;
                }
            },
            BattlePlayerState::WaitToSelect => {
                if self.should_select {
                    self.should_select = false;
                    self.state = BattlePlayerState::Select(0);
                }
            },
            BattlePlayerState::Select(i) => {
                if input.forfeit && self.wild {
                    self.outbox.push(ClientMessage::Forfeit);
                } else if i < self.teams[0].active.len() {
                    if self.teams[0].member_at(i).is_none() {
                        self.state = BattlePlayerState::Select(i + 1);
                    } else if let Some(mv) = input.selection {
                        self.outbox.push(ClientMessage::Move(i, mv));
                        self.state = BattlePlayerState::Select(i + 1);
                    }
                }
            },
            BattlePlayerState::Moving => self.tick_turn(input),
        }
    }

    /// Handles one message of the authority. A turn may only start while no
    /// turn is being played out, and declares moves, items and switches only; a replacement outside a turn is only for
    /// an empty slot or a fainted monster.
    pub fn process(&mut self, msg: ServerMessage)
        requires
            old(self).wf(),
            msg is Turns ==> old(self).state != BattlePlayerState::Moving,
            msg matches ServerMessage::Turns(actions) ==> forall|i: int|
                0 <= i < actions@.len() ==> crate::action::declared_kind(#[trigger] actions@[i]@.kind),
            msg matches ServerMessage::Replace(actor, _) ==> old(self).state
                == BattlePlayerState::Moving || !old(self).model().occupied(actor) || ({
                let (p, j) = old(self).model().member(actor)->0;
                old(self).model().teams[p].party[j].fainted()
            }),
        ensures
            final(self).wf(),
            final(self).catalog == old(self).catalog,
            final(self).wild == old(self).wild,
            !(msg is Turns) ==> final(self).state == old(self).state,
            !(msg is Turns) ==> final(self).current_view() == old(self).current_view(),
            !(msg is Selecting) ==> final(self).should_select == old(self).should_select,
            match msg {
                ServerMessage::Selecting => final(self).should_select && final(self).model()
                    == old(self).model() && final(self).state == old(self).state,
                ServerMessage::Turns(actions) => {
                    &&& final(self).state == BattlePlayerState::Moving
                    &&& final(self).model().pending == actions@.map_values(|a: PendingAction| a@)
                    &&& final(self).model().pages.len() == 0
                    &&& final(self).current_view() is None
                    &&& final(self).model().teams == old(self).model().teams
                },
                ServerMessage::Replace(actor, n) => if old(self).state == BattlePlayerState::Moving {
                    final(self).model().pending == old(self).model().pending.push(
                        crate::action::PendingView {
                            actor,
                            kind: crate::action::ActionView::Replace(Some(n)),
                        },
                    ) && final(self).model().teams == old(self).model().teams
                } else {
                    final(self).model() == old(self).model().swap_in(actor, Some(n))
                },
                ServerMessage::AddRemote(team, index, mon) => match old(self).model().team_of(team) {
                    Some(p) => final(self).model().teams == old(self).model().teams.update(
                        p,
                        old(self).model().teams[p].with_revealed(index as int, mon@),
                    ),
                    None => final(self).model() == old(self).model(),
                },
            },
    {
        match msg {
            ServerMessage::Selecting => {
                self.should_select = true;
            },
            ServerMessage::Turns(actions) => {
                let mut q: VecDeque<PendingAction> = VecDeque::new();
                let mut i: usize = 0;
                let mut actions = actions;
                let ghost all = actions@;
                while actions.len() > 0
                    invariant
                        q@ + actions@ == all,
                    decreases actions@.len(),
                {
                    let a = actions.remove(0);
                    q.push_back(a);
                    assert(q@ + actions@ =~= all);
                }
                assert(q@ =~= all);
                self.queue = MoveQueue { actions: q, current: None };
                self.text.clear();
                self.state = BattlePlayerState::Moving;
            },
            ServerMessage::Replace(actor, n) => {
                if let BattlePlayerState::Moving = self.state {
                    self.queue.actions.push_back(
                        PendingAction { actor, kind: BattleClientGuiAction::Replace(Some(n)) },
                    );
                    assert(self.model().pending =~= old(self).model().pending.push(
                        crate::action::PendingView {
                            actor,
                            kind: crate::action::ActionView::Replace(Some(n)),
                        },
                    ));
                } else {
                    self.swap_in(actor, Some(n));
                }
            },
            ServerMessage::AddRemote(team, index, mon) => {
                match self.find_team(team) {
                    Some(p) => {
                        let ghost a = *self;
                        self.teams[p].add_known(index, mon);
                        proof {
                            Self::lemma_team_changed(a, *self, p as int);
                        }
                    },
                    None => {},
                }
            },
        }
    }

    /// Plays out the rest of a turn whose queued actions are all calm, with
    /// the text moving on in every frame and nobody choosing anything: frame
    /// after frame through `update`, until the turn ends. The result is the
    /// state that `turn_tick` reaches frame by frame, and the turn ends with
    /// the queue empty, nothing in progress, and the end of the turn as the
    /// one message added for the authority.
    pub fn play_out_turn(&mut self)
        requires
            old(self).wf(),
            old(self).state == BattlePlayerState::Moving,
            all_calm(old(self).model().pending, old(self).catalog),
            old(self).current_view() matches Some(c) ==> calm_current(old(self).model(), c.current),
        ensures
            final(self).wf(),
            ({
                let (m, c, going) = drive(
                    old(self).model(),
                    old(self).current_view(),
                    frames_left(old(self).model(), old(self).current_view()),
                    old(self).catalog,
                    old(self).local_id(),
                    old(self).wild,
                );
                &&& final(self).model() == m
                &&& final(self).current_view() == c
                &&& !going
            }),
            final(self).state == BattlePlayerState::WaitToSelect,
            final(self).model().pending.len() == 0,
            final(self).current_view() is None,
            final(self).model().outbox == old(self).model().outbox.push(
                ClientMessage::FinishedTurnQueue,
            ),
    {
        let input = FrameInput {
            advance_text: true,
            choice: None,
            selection: None,
            transition_done: false,
            forfeit: false,
        };
        assert(input == frame_go());
        let ghost cat = self.catalog;
        let ghost local = self.local_id();
        let ghost wild = self.wild;
        let ghost mut fuel: nat = frames_left(self.model(), self.current_view());
        let ghost goal = drive(self.model(), self.current_view(), fuel, cat, local, wild);
        proof {
            lemma_drive(self.model(), self.current_view(), fuel, cat, local, wild);
        }
        while self.state == BattlePlayerState::Moving
            invariant
                self.wf(),
                input == frame_go(),
                self.catalog == cat,
                self.wild == wild,
                self.local_id() == local,
                cat == old(self).catalog,
                wild == old(self).wild,
                local == old(self).local_id(),
                goal == drive(
                    old(self).model(),
                    old(self).current_view(),
                    frames_left(old(self).model(), old(self).current_view()),
                    cat,
                    local,
                    wild,
                ),
                !goal.2,
                goal.1 is None,
                goal.0.pending.len() == 0,
                goal.0.outbox == old(self).model().outbox.push(ClientMessage::FinishedTurnQueue),
                all_calm(self.model().pending, self.catalog),
                self.current_view() matches Some(c) ==> calm_current(self.model(), c.current),
                self.state == BattlePlayerState::Moving ==> {
                    &&& drive(self.model(), self.current_view(), fuel, cat, local, wild) == goal
                    &&& fuel >= frames_left(self.model(), self.current_view())
                },
                self.state != BattlePlayerState::Moving ==> {
                    &&& self.state == BattlePlayerState::WaitToSelect
                    &&& (self.model(), self.current_view(), false) == goal
                },
            decreases frames_left(self.model(), self.current_view()) + if self.state
                == BattlePlayerState::Moving {
                1nat
            } else {
                0nat
            },
        {
            proof {
                lemma_calm_tick(self.model(), self.current_view(), cat, local, wild);
            }
            self.update(&input);
            proof {
                if self.state == BattlePlayerState::Moving {
                    fuel = (fuel - 1) as nat;
                }
            }
        }
    }
}

/// Where each outcome of a move lands.
fn outcome_locations(outcomes: &Vec<TargetOutcome>) -> (r: Vec<ActorRef>)
    ensures
        r@ == locations(outcomes@.map_values(|o: TargetOutcome| o@)),
{
    let mut r: Vec<ActorRef> = Vec::new();
    let mut i: usize = 0;
    while i < outcomes.len()
        invariant
            i <= outcomes@.len(),
            r@.len() == i,
            forall|k: int| 0 <= k < i ==> r@[k] == outcomes@[k].location,
        decreases outcomes@.len() - i,
    {
        r.push(outcomes[i].location);
        i += 1;
    }
    assert(r@ =~= locations(outcomes@.map_values(|o: TargetOutcome| o@)));
    r
}

} // verus!
