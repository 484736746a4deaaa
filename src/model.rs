use vstd::prelude::*;
use crate::action::{
    ActionView, ActorRef, CurrentView, Effect, InProgressView, LearnStage, OutcomeView, PendingView,
};
use crate::catalog::{Catalog, ItemUsage};
use crate::roster::{MoveSlot, SlotVisual};
use crate::team::TeamView;
use crate::text::{MemberRef, TextPage};

verus! {

/// Steps of the flicker shown on a monster that was hit.
pub const FLICKER_STEPS: u32 = 6;
/// Steps of the interpolation of a health or experience bar.
pub const BAR_STEPS: u32 = 12;
/// Steps of the faint animation.
pub const FAINT_STEPS: u32 = 10;

/// What the battle authority is told.
#[derive(Clone, Copy, Debug, PartialEq, Eq, Structural)]
pub enum BattleMove {
    /// A move index of the active monster and, where it needs one, a target.
    Move(usize, Option<ActorRef>),
    UseItem(ActorRef, u32),
    Switch(usize),
}

#[derive(Clone, Copy, Debug, PartialEq, Eq, Structural)]
pub enum ClientMessage {
    /// The action chosen for an active slot.
    Move(usize, BattleMove),
    /// An active slot and the party index chosen to replace its fainted monster.
    ReplaceFaint(usize, usize),
    /// A party index, the move it learned and the move slot it took.
    LearnMove(usize, u32, usize),
    /// The turn has been played out.
    FinishedTurnQueue,
    Forfeit,
}

/// Everything a step of the turn reads or changes, as mathematical values.
pub struct Model {
    pub teams: Seq<TeamView>,
    pub pages: Seq<TextPage>,
    pub page: int,
    pub pending: Seq<PendingView>,
    pub outbox: Seq<ClientMessage>,
}

pub open spec fn faint_of(t: ActorRef) -> PendingView {
    PendingView { actor: t, kind: ActionView::Faint }
}

/// Some queued action is a faint of the given actor.
pub open spec fn has_faint(pending: Seq<PendingView>, t: ActorRef) -> bool {
    exists|i: int| 0 <= i < pending.len() && #[trigger] pending[i] == faint_of(t)
}

/// A hit: the health bar moves, and a monster left standing flickers.
pub open spec fn hit_visual(v: SlotVisual, hp: u16) -> SlotVisual {
    SlotVisual {
        flicker: if hp > 0 { FLICKER_STEPS } else { v.flicker },
        hp_bar: BAR_STEPS,
        ..v
    }
}

pub open spec fn faint_visual(v: SlotVisual) -> SlotVisual {
    SlotVisual { fainting: FAINT_STEPS, ..v }
}

pub open spec fn exp_visual(v: SlotVisual) -> SlotVisual {
    SlotVisual { exp_bar: BAR_STEPS, ..v }
}

pub open spec fn shown_visual(v: SlotVisual, shown: Option<usize>) -> SlotVisual {
    SlotVisual { shown, ..v }
}

impl Model {
    /// The position of the team with the given id.
    pub open spec fn team_of(self, id: u64) -> Option<int> {
        if exists|i: int| 0 <= i < self.teams.len() && #[trigger] self.teams[i].id == id {
            Some(choose|i: int| 0 <= i < self.teams.len() && #[trigger] self.teams[i].id == id)
        } else {
            None
        }
    }

    /// The team position and party index of the monster in a slot, if any.
    pub open spec fn member(self, r: ActorRef) -> Option<(int, int)> {
        match self.team_of(r.team) {
            Some(p) => match self.teams[p].member_at(r.slot as int) {
                Some(j) => Some((p, j as int)),
                None => None,
            },
            None => None,
        }
    }

    pub open spec fn occupied(self, r: ActorRef) -> bool {
        self.member(r) is Some
    }

    pub open spec fn with_team(self, p: int, t: TeamView) -> Model {
        Model { teams: self.teams.update(p, t), ..self }
    }

    pub open spec fn say(self, pg: TextPage) -> Model {
        Model { pages: self.pages.push(pg), ..self }
    }

    pub open spec fn cascade(self, a: PendingView) -> Model {
        Model { pending: seq![a] + self.pending, ..self }
    }

    pub open spec fn send(self, msg: ClientMessage) -> Model {
        Model { outbox: self.outbox.push(msg), ..self }
    }

    /// A faint of `t` goes to the front of the queue, unless the action being
    /// started queued one already: one among the entries ahead of the
    /// `waiting` ones that stood in the queue when it was popped.
    pub open spec fn queue_faint(self, t: ActorRef, waiting: nat) -> Model {
        if has_faint(self.pending.take(self.pending.len() - waiting), t) {
            self
        } else {
            self.cascade(faint_of(t))
        }
    }
}

/// One effect of a move on the monster at `loc`. A `FaintTrigger` is queued in
/// any case; every other effect applies only while the target stands and has
/// not fainted. `waiting` is the length of the queue when the move was popped.
pub open spec fn apply_effect(m: Model, loc: ActorRef, e: Effect, cat: Catalog, waiting: nat) -> Model {
    match e {
        Effect::FaintTrigger(t) => m.queue_faint(t, waiting),
        _ => match m.member(loc) {
            None => m,
            Some((p, j)) => {
                let t = m.teams[p];
                let mon = t.party[j];
                let slot = loc.slot as int;
                let who = MemberRef { team: loc.team, member: j as usize };
                if mon.fainted() {
                    m
                } else {
                    match e {
                        Effect::SetHp(hp) => {
                            let m1 = m.with_team(
                                p,
                                t.with_member(j, mon.with_hp(hp)).with_visual(
                                    slot,
                                    hit_visual(t.visuals[slot], hp),
                                ),
                            );
                            if hp == 0 {
                                m1.queue_faint(loc, waiting)
                            } else {
                                m1
                            }
                        },
                        Effect::Miss => m.say(TextPage::Missed { target: who }),
                        Effect::Fail => m.say(TextPage::Failed { target: who }),
                        Effect::CriticalHit => m.say(TextPage::Critical),
                        Effect::Effectiveness(x) => m.say(TextPage::Effective(x)),
                        Effect::StatStageChange(stat, delta) => m.with_team(
                            p,
                            t.with_member(j, mon.with_stage_change(stat, delta)),
                        ).say(TextPage::StatStage { target: who, stat, delta }),
                        Effect::Ailment(a) => m.with_team(p, t.with_member(j, mon.with_ailment(a))).say(
                            TextPage::Afflicted { target: who, ailment: a },
                        ),
                        Effect::GainExp(experience, level) => if mon.known {
                            let (grown, offered) = mon.grown_into(level, cat);
                            m.with_team(p, t.with_member(j, grown)).cascade(
                                PendingView {
                                    actor: loc,
                                    kind: ActionView::SetExp {
                                        previous_level: mon.level,
                                        new_experience: experience,
                                        new_level: level,
                                        learnable_moves: offered,
                                    },
                                },
                            )
                        } else {
                            m
                        },
                        Effect::FaintTrigger(_) => m,
                    }
                }
            },
        },
    }
}

/// The effects of one outcome, in order.
pub open spec fn apply_effects(
    m: Model,
    loc: ActorRef,
    effects: Seq<Effect>,
    cat: Catalog,
    waiting: nat,
) -> Model
    decreases effects.len(),
{
    if effects.len() == 0 {
        m
    } else {
        apply_effect(
            apply_effects(m, loc, effects.drop_last(), cat, waiting),
            loc,
            effects.last(),
            cat,
            waiting,
        )
    }
}

/// The outcomes of a move, in order.
pub open spec fn apply_outcomes(
    m: Model,
    outcomes: Seq<OutcomeView>,
    cat: Catalog,
    waiting: nat,
) -> Model
    decreases outcomes.len(),
{
    if outcomes.len() == 0 {
        m
    } else {
        let o = outcomes.last();
        apply_effects(
            apply_outcomes(m, outcomes.drop_last(), cat, waiting),
            o.location,
            o.effects,
            cat,
            waiting,
        )
    }
}

pub open spec fn locations(outcomes: Seq<OutcomeView>) -> Seq<ActorRef> {
    outcomes.map_values(|o: OutcomeView| o.location)
}

/// Whom an item is used on: a member of the user's own team for scripts and
/// actions, an opposing monster for a ball, nobody for an unusable item.
pub open spec fn item_target(user: ActorRef, target: ActorRef, usage: ItemUsage, local: u64) -> Option<
    ActorRef,
> {
    match usage {
        ItemUsage::Script | ItemUsage::Actions => Some(ActorRef { team: user.team, slot: target.slot }),
        ItemUsage::Pokeball => if target.team != local {
            Some(target)
        } else {
            None
        },
        ItemUsage::Unusable => None,
    }
}

/// The immediate effects of starting an action on a model whose text box was
/// just cleared, and the presentation state it starts in; `None` when the
/// action shows nothing and is dropped.
pub open spec fn dispatch_spec(m: Model, a: PendingView, cat: Catalog, local: u64, wild: bool) -> (
    Model,
    Option<CurrentView>,
) {
    let r = a.actor;
    let slot = r.slot as int;
    if crate::action::kind_requires_user(a.kind) && !m.occupied(r) {
        (m, None)
    } else {
        match a.kind {
            ActionView::Move { move_id, pp_cost, outcomes } => {
                let (p, j) = m.member(r)->0;
                let who = MemberRef { team: r.team, member: j as usize };
                match cat.move_spec(move_id) {
                    None => (
                        m.say(TextPage::CannotUse { user: who, move_id }),
                        Some(CurrentView::Move(Seq::empty())),
                    ),
                    Some(_) => {
                        let t = m.teams[p];
                        let m1 = m.with_team(
                            p,
                            t.with_member(j, t.party[j].with_pp_spent(move_id, pp_cost)),
                        ).say(TextPage::Used { user: who, move_id });
                        (
                            apply_outcomes(m1, outcomes, cat, m.pending.len()),
                            Some(CurrentView::Move(locations(outcomes))),
                        )
                    },
                }
            },
            ActionView::UseItem { item_id, target } => match cat.item_spec(item_id) {
                None => (m.say(TextPage::ItemFailed { item_id }), Some(CurrentView::UseItem(target))),
                Some(entry) => match item_target(r, target, entry.usage, local) {
                    Some(tr) => match m.member(tr) {
                        Some((_, j2)) => {
                            let m1 = if entry.usage is Pokeball {
                                m.cascade(PendingView { actor: tr, kind: ActionView::Catch })
                            } else {
                                m
                            };
                            (
                                m1.say(
                                    TextPage::ItemUsed {
                                        item_id,
                                        target: MemberRef { team: tr.team, member: j2 as usize },
                                    },
                                ),
                                Some(CurrentView::UseItem(target)),
                            )
                        },
                        None => (m, None),
                    },
                    None => (m, None),
                },
            },
            ActionView::Switch(n) => {
                let (p, j) = m.member(r)->0;
                let coming = if (n as int) < m.teams[p].party.len() {
                    Some(MemberRef { team: r.team, member: n })
                } else {
                    None
                };
                (
                    m.say(TextPage::ComeBack(Some(MemberRef { team: r.team, member: j as usize }))).say(
                        TextPage::Go(coming),
                    ),
                    Some(CurrentView::Switch(n)),
                )
            },
            ActionView::Faint => match m.member(r) {
                Some((p, j)) => {
                    let t = m.teams[p];
                    (
                        m.with_team(
                            p,
                            t.with_member(j, t.party[j].with_hp(0)).with_visual(
                                slot,
                                faint_visual(t.visuals[slot]),
                            ),
                        ).say(
                            TextPage::Fainted {
                                who: MemberRef { team: r.team, member: j as usize },
                                is_player: r.team == local,
                                is_wild: wild,
                            },
                        ),
                        Some(CurrentView::Faint(false)),
                    )
                },
                None => (m, None),
            },
            ActionView::Catch => {
                let (p, j) = m.member(r)->0;
                let t = m.teams[p];
                if r.team != local {
                    (
                        m.with_team(
                            p,
                            t.with_active(slot, None).with_visual(
                                slot,
                                shown_visual(t.visuals[slot], None),
                            ),
                        ).say(TextPage::Caught { who: MemberRef { team: r.team, member: j as usize } }),
                        Some(CurrentView::Catch),
                    )
                } else {
                    (m, None)
                }
            },
            ActionView::Replace(new) => match m.team_of(r.team) {
                Some(p) => {
                    let m1 = match new {
                        Some(n) => if (n as int) < m.teams[p].party.len() {
                            m.say(TextPage::SentOut { team: r.team, member: n })
                        } else {
                            m
                        },
                        None => m,
                    };
                    (m1, Some(CurrentView::Replace(new, false)))
                },
                None => (m, None),
            },
            ActionView::SetExp { previous_level, new_experience, new_level, learnable_moves } => {
                let (p, j) = m.member(r)->0;
                let t = m.teams[p];
                (
                    m.with_team(
                        p,
                        t.with_member(j, t.party[j].with_progress(new_level, new_experience)).with_visual(
                            slot,
                            exp_visual(t.visuals[slot]),
                        ),
                    ).say(
                        TextPage::GainedExp {
                            who: MemberRef { team: r.team, member: j as usize },
                            experience: new_experience,
                            level: new_level,
                        },
                    ).cascade(PendingView { actor: r, kind: ActionView::LevelUp(learnable_moves) }),
                    Some(CurrentView::SetExp),
                )
            },
            ActionView::LevelUp(moves) => {
                let (p, j) = m.member(r)->0;
                if moves.len() > 0 {
                    (
                        m.say(
                            TextPage::TryingToLearn {
                                who: MemberRef { team: r.team, member: j as usize },
                                move_id: moves[0],
                            },
                        ),
                        Some(CurrentView::LevelUp(moves, crate::action::LearnStage::Prompt)),
                    )
                } else {
                    (m, None)
                }
            },
        }
    }
}

/// What the viewer reports for one frame.
#[derive(Clone, Copy, Debug, PartialEq, Eq, Structural)]
pub enum Choice {
    /// The party picker chose this party index.
    Party(usize),
    /// The party picker closed without a valid choice.
    NoReplacement,
    /// The move picker put the offered move into this move slot.
    Learn(usize),
    /// The move picker declined the offered move.
    Decline,
}

#[derive(Clone, Copy, Debug, PartialEq, Eq, Structural)]
pub struct FrameInput {
    /// The text box moves to its next page in this frame.
    pub advance_text: bool,
    /// What a selection widget reported in this frame.
    pub choice: Option<Choice>,
    /// The action chosen in the action menu in this frame.
    pub selection: Option<BattleMove>,
    /// The opening or introduction animation has ended.
    pub transition_done: bool,
    /// The player chose to run from the battle.
    pub forfeit: bool,
}

pub open spec fn hp_stepped(v: SlotVisual) -> SlotVisual {
    SlotVisual {
        flicker: if v.flicker > 0 { (v.flicker - 1) as u32 } else { 0 },
        hp_bar: if v.hp_bar > 0 { (v.hp_bar - 1) as u32 } else { 0 },
        ..v
    }
}

pub open spec fn faint_stepped(v: SlotVisual) -> SlotVisual {
    SlotVisual { fainting: (v.fainting - 1) as u32, ..v }
}

pub open spec fn exp_stepped(v: SlotVisual) -> SlotVisual {
    SlotVisual { exp_bar: if v.exp_bar > 0 { (v.exp_bar - 1) as u32 } else { 0 }, ..v }
}

pub open spec fn hp_animating(v: SlotVisual) -> bool {
    v.flicker > 0 || v.hp_bar > 0
}

impl Model {
    pub open spec fn finished(self) -> bool {
        self.page >= self.pages.len()
    }

    /// The text box moves on by one page if asked to and not finished.
    pub open spec fn text_step(self, advance: bool) -> Model {
        if advance && !self.finished() {
            Model { page: self.page + 1, ..self }
        } else {
            self
        }
    }

    /// What the viewer shows of a slot, if the slot exists.
    pub open spec fn visual(self, r: ActorRef) -> Option<SlotVisual> {
        match self.team_of(r.team) {
            Some(p) => if self.teams[p].has_visual(r.slot as int) {
                Some(self.teams[p].visuals[r.slot as int])
            } else {
                None
            },
            None => None,
        }
    }

    pub open spec fn set_visual(self, r: ActorRef, v: SlotVisual) -> Model {
        match self.team_of(r.team) {
            Some(p) => self.with_team(p, self.teams[p].with_visual(r.slot as int, v)),
            None => self,
        }
    }

    /// The slot now holds `new`, and its visual shows it.
    pub open spec fn swap_in(self, r: ActorRef, new: Option<usize>) -> Model {
        match self.team_of(r.team) {
            Some(p) => {
                let t = self.teams[p];
                self.with_team(
                    p,
                    t.with_active(r.slot as int, new).with_visual(
                        r.slot as int,
                        shown_visual(t.visuals[r.slot as int], new),
                    ),
                )
            },
            None => self,
        }
    }
}

/// The hit animations of the tracked targets move on by one step; the targets
/// whose animations had already ended are dropped.
pub open spec fn step_targets(m: Model, ts: Seq<ActorRef>) -> (Model, Seq<ActorRef>)
    decreases ts.len(),
{
    if ts.len() == 0 {
        (m, Seq::empty())
    } else {
        let (m1, kept) = step_targets(m, ts.drop_last());
        let t = ts.last();
        match m1.visual(t) {
            Some(v) => if hp_animating(v) {
                (m1.set_visual(t, hp_stepped(v)), kept.push(t))
            } else {
                (m1, kept)
            },
            None => (m1, kept),
        }
    }
}

/// After a move was learned or declined: offer the next one, or finish.
pub open spec fn offer_next(m: Model, who: MemberRef, rest: Seq<u32>) -> (Model, Option<CurrentView>) {
    if rest.len() == 0 {
        (m, None)
    } else {
        (
            m.say(TextPage::TryingToLearn { who, move_id: rest[0] }),
            Some(CurrentView::LevelUp(rest, LearnStage::Prompt)),
        )
    }
}

/// One frame of the action being animated. `None` when it completes.
pub open spec fn advance_spec(
    m: Model,
    cur: InProgressView,
    input: FrameInput,
    cat: Catalog,
    local: u64,
) -> (Model, Option<CurrentView>) {
    let r = cur.actor;
    let slot = r.slot as int;
    match m.team_of(r.team) {
        None => (m, None),
        Some(p) => {
            let t = m.teams[p];
            match cur.current {
                CurrentView::Move(targets) => {
                    let (m1, kept) = step_targets(m.text_step(input.advance_text), targets);
                    if m1.page >= 1 && kept.len() == 0 {
                        (m1, None)
                    } else {
                        (m1, Some(CurrentView::Move(kept)))
                    }
                },
                CurrentView::Switch(n) => if m.finished() {
                    (m, None)
                } else {
                    let m1 = m.text_step(input.advance_text);
                    let already = 0 <= slot < t.active.len() && t.active[slot] == Some(n);
                    if m1.page == 1 && !already {
                        (m1.swap_in(r, Some(n)), Some(CurrentView::Switch(n)))
                    } else {
                        (m1, Some(CurrentView::Switch(n)))
                    }
                },
                CurrentView::UseItem(target) => if !m.finished() {
                    (m.text_step(input.advance_text), Some(CurrentView::UseItem(target)))
                } else {
                    match m.visual(target) {
                        Some(v) => if v.hp_bar > 0 {
                            (m.set_visual(target, hp_stepped(v)), Some(CurrentView::UseItem(target)))
                        } else {
                            (m, None)
                        },
                        None => (m, None),
                    }
                },
                CurrentView::Faint(opened) => {
                    let fainting = match m.visual(r) {
                        Some(v) => v.fainting > 0,
                        None => false,
                    };
                    if fainting {
                        (m.set_visual(r, faint_stepped(m.visual(r)->0)), Some(CurrentView::Faint(opened)))
                    } else if !m.finished() {
                        (m.text_step(input.advance_text), Some(CurrentView::Faint(opened)))
                    } else if r.team == local && t.any_inactive() {
                        if !opened {
                            (m, Some(CurrentView::Faint(true)))
                        } else {
                            match input.choice {
                                Some(Choice::Party(k)) => if (k as int) < t.party.len()
                                    && !t.party[k as int].fainted() && !t.is_active_member(k as int) {
                                    (
                                        m.swap_in(r, Some(k)).send(ClientMessage::ReplaceFaint(r.slot, k)),
                                        None,
                                    )
                                } else {
                                    (m, Some(CurrentView::Faint(true)))
                                },
                                Some(Choice::NoReplacement) => (m.swap_in(r, None), None),
                                _ => (m, Some(CurrentView::Faint(true))),
                            }
                        }
                    } else {
                        (m.swap_in(r, None), None)
                    }
                },
                CurrentView::Catch => if m.finished() {
                    (m, None)
                } else {
                    (m.text_step(input.advance_text), Some(CurrentView::Catch))
                },
                CurrentView::Replace(new, replaced) => if m.finished() {
                    (
                        if !replaced {
                            m.swap_in(r, new)
                        } else {
                            m
                        },
                        None,
                    )
                } else {
                    let m1 = m.text_step(input.advance_text);
                    if !replaced && m1.page >= 1 {
                        (m1.swap_in(r, new), Some(CurrentView::Replace(new, true)))
                    } else {
                        (m1, Some(CurrentView::Replace(new, replaced)))
                    }
                },
                CurrentView::SetExp => match m.member(r) {
                    None => (m, None),
                    Some(_) => {
                        let moving = match m.visual(r) {
                            Some(v) => v.exp_bar > 0,
                            None => false,
                        };
                        if !m.finished() || moving {
                            let m1 = m.text_step(input.advance_text);
                            match m1.visual(r) {
                                Some(v) => (m1.set_visual(r, exp_stepped(v)), Some(CurrentView::SetExp)),
                                None => (m1, Some(CurrentView::SetExp)),
                            }
                        } else {
                            (m, None)
                        }
                    },
                },
                CurrentView::LevelUp(moves, stage) => match m.member(r) {
                    None => (m, None),
                    Some((_, j)) => if moves.len() == 0 {
                        (m, None)
                    } else {
                        let who = MemberRef { team: r.team, member: j as usize };
                        match stage {
                            LearnStage::Prompt => {
                                let m1 = m.text_step(input.advance_text);
                                if m1.finished() {
                                    (m1, Some(CurrentView::LevelUp(moves, LearnStage::Choosing)))
                                } else {
                                    (m1, Some(CurrentView::LevelUp(moves, LearnStage::Prompt)))
                                }
                            },
                            LearnStage::Choosing => match input.choice {
                                Some(Choice::Learn(s)) => {
                                    let mv = moves[0];
                                    let m0 = match cat.move_spec(mv) {
                                        Some(e) => m.with_team(
                                            p,
                                            t.with_member(
                                                j,
                                                t.party[j].with_learned(s, MoveSlot { move_id: mv, pp: e.pp }),
                                            ),
                                        ),
                                        None => m,
                                    };
                                    let m1 = m0.send(ClientMessage::LearnMove(j as usize, mv, s));
                                    offer_next(m1, who, moves.drop_first())
                                },
                                Some(Choice::Decline) => offer_next(m, who, moves.drop_first()),
                                _ => (m, Some(CurrentView::LevelUp(moves, LearnStage::Choosing))),
                            },
                        }
                    },
                },
            }
        },
    }
}

/// Pops the front of the queue with a fresh text box.
pub open spec fn popped(m: Model) -> Model {
    Model { pending: m.pending.drop_first(), pages: Seq::empty(), page: 0, ..m }
}

/// Pops and starts queued actions until one shows something or the queue is
/// empty, trying at most `fuel` of them.
pub open spec fn next_action(m: Model, cat: Catalog, local: u64, wild: bool, fuel: nat) -> (
    Model,
    Option<InProgressView>,
)
    decreases fuel,
{
    if fuel == 0 || m.pending.len() == 0 {
        (m, None)
    } else {
        let a = m.pending[0];
        let (m1, c) = dispatch_spec(popped(m), a, cat, local, wild);
        match c {
            Some(c) => (m1, Some(InProgressView { actor: a.actor, current: c })),
            None => next_action(m1, cat, local, wild, (fuel - 1) as nat),
        }
    }
}

/// One frame of a turn: with nothing animating, the next action is started,
/// or the turn ends and the authority is told; otherwise the current action
/// moves on, and is dropped once complete. The last value is whether the turn
/// goes on.
pub open spec fn turn_tick(
    m: Model,
    cur: Option<InProgressView>,
    input: FrameInput,
    cat: Catalog,
    local: u64,
    wild: bool,
) -> (Model, Option<InProgressView>, bool) {
    match cur {
        None => {
            let (m1, c) = next_action(m, cat, local, wild, m.pending.len());
            match c {
                Some(c) => (m1, Some(c), true),
                None => (m1.send(ClientMessage::FinishedTurnQueue), None, false),
            }
        },
        Some(c) => {
            let (m1, n) = advance_spec(m, c, input, cat, local);
            match n {
                Some(nc) => (m1, Some(InProgressView { actor: c.actor, current: nc }), true),
                None => (m1, None, true),
            }
        },
    }
}

} // verus!
