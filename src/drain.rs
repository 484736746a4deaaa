use vstd::prelude::*;
use crate::action::{ActionView, ActorRef, CurrentView, Effect, InProgressView, OutcomeView, PendingView};
use crate::catalog::Catalog;
use crate::model::{
    advance_spec, apply_effect, apply_effects, apply_outcomes, dispatch_spec, next_action, popped,
    step_targets, turn_tick, ClientMessage, FrameInput, Model, BAR_STEPS, FLICKER_STEPS,
};
use crate::roster::SlotVisual;
use crate::team::TeamView;

verus! {

/// Steps left in the animations of one slot.
pub open spec fn steps_left(v: SlotVisual) -> nat {
    (v.flicker + v.hp_bar + v.exp_bar + v.fainting) as nat
}

pub open spec fn visuals_left(vs: Seq<SlotVisual>) -> nat
    decreases vs.len(),
{
    if vs.len() == 0 {
        0
    } else {
        visuals_left(vs.drop_last()) + steps_left(vs.last())
    }
}

/// Steps left in all animations of all teams.
pub open spec fn animation_left(ts: Seq<TeamView>) -> nat
    decreases ts.len(),
{
    if ts.len() == 0 {
        0
    } else {
        animation_left(ts.drop_last()) + visuals_left(ts.last().visuals)
    }
}

proof fn lemma_visuals_update(vs: Seq<SlotVisual>, i: int, v: SlotVisual)
    requires
        0 <= i < vs.len(),
    ensures
        visuals_left(vs.update(i, v)) + steps_left(vs[i]) == visuals_left(vs) + steps_left(v),
    decreases vs.len(),
{
    if i < vs.len() - 1 {
        lemma_visuals_update(vs.drop_last(), i, v);
        assert(vs.update(i, v).drop_last() =~= vs.drop_last().update(i, v));
    } else {
        assert(vs.update(i, v).drop_last() =~= vs.drop_last());
    }
}

proof fn lemma_animation_update(ts: Seq<TeamView>, p: int, t: TeamView)
    requires
        0 <= p < ts.len(),
    ensures
        animation_left(ts.update(p, t)) + visuals_left(ts[p].visuals) == animation_left(ts)
            + visuals_left(t.visuals),
    decreases ts.len(),
{
    if p < ts.len() - 1 {
        lemma_animation_update(ts.drop_last(), p, t);
        assert(ts.update(p, t).drop_last() =~= ts.drop_last().update(p, t));
    } else {
        assert(ts.update(p, t).drop_last() =~= ts.drop_last());
    }
}

/// Steps left in the animations of a model.
pub open spec fn anim(m: Model) -> nat {
    animation_left(m.teams)
}

proof fn lemma_team_visuals_kept(m: Model, p: int, t: TeamView)
    requires
        0 <= p < m.teams.len(),
        t.visuals == m.teams[p].visuals,
    ensures
        anim(m.with_team(p, t)) == anim(m),
{
    lemma_animation_update(m.teams, p, t);
}

proof fn lemma_visual_changed(m: Model, p: int, t: TeamView, slot: int, v: SlotVisual)
    requires
        0 <= p < m.teams.len(),
    ensures
        t.has_visual(slot) ==> anim(m.with_team(p, t.with_visual(slot, v))) + steps_left(
            t.visuals[slot],
        ) == anim(m) + steps_left(v) + visuals_left(t.visuals) - visuals_left(m.teams[p].visuals),
        !t.has_visual(slot) ==> anim(m.with_team(p, t.with_visual(slot, v))) + visuals_left(
            m.teams[p].visuals,
        ) == anim(m) + visuals_left(t.visuals),
{
    lemma_animation_update(m.teams, p, t.with_visual(slot, v));
    if t.has_visual(slot) {
        lemma_visuals_update(t.visuals, slot, v);
    }
}

/// An effect that queues nothing: no knock-out, faint trigger or experience.
pub open spec fn calm_effect(e: Effect) -> bool {
    match e {
        Effect::SetHp(hp) => hp > 0,
        Effect::FaintTrigger(_) => false,
        Effect::GainExp(_, _) => false,
        _ => true,
    }
}

/// A declared action whose playing queues no cascade.
pub open spec fn calm_action(a: PendingView, cat: Catalog) -> bool {
    match a.kind {
        ActionView::Move { outcomes, .. } => forall|k: int, i: int|
            0 <= k < outcomes.len() && 0 <= i < outcomes[k].effects.len() ==> calm_effect(
                #[trigger] outcomes[k].effects[i],
            ),
        ActionView::UseItem { item_id, .. } => match cat.item_spec(item_id) {
            Some(e) => !(e.usage is Pokeball),
            None => true,
        },
        ActionView::Switch(_) => true,
        _ => false,
    }
}

pub open spec fn all_calm(s: Seq<PendingView>, cat: Catalog) -> bool {
    forall|i: int| 0 <= i < s.len() ==> calm_action(#[trigger] s[i], cat)
}

pub open spec fn effect_count(outcomes: Seq<OutcomeView>) -> nat
    decreases outcomes.len(),
{
    if outcomes.len() == 0 {
        0
    } else {
        effect_count(outcomes.drop_last()) + outcomes.last().effects.len()
    }
}

/// Steps that a hit adds to the animations of a slot at most.
pub open spec fn hit_steps() -> nat {
    (FLICKER_STEPS + BAR_STEPS) as nat
}

/// Frames that a queued calm action takes at most, starting it included.
pub open spec fn cost(a: PendingView) -> nat {
    match a.kind {
        ActionView::Move { outcomes, .. } => 3 + outcomes.len() + effect_count(outcomes) * hit_steps(),
        ActionView::UseItem { .. } => 4,
        ActionView::Switch(_) => 5,
        _ => 0,
    }
}

pub open spec fn queue_cost(s: Seq<PendingView>) -> nat
    decreases s.len(),
{
    if s.len() == 0 {
        0
    } else {
        cost(s[0]) + queue_cost(s.drop_first())
    }
}

/// The action being played is one that a calm turn starts, with its text box
/// in order.
pub open spec fn calm_current(m: Model, c: CurrentView) -> bool {
    &&& 0 <= m.page <= m.pages.len()
    &&& match c {
        CurrentView::Move(_) => m.pages.len() >= 1,
        CurrentView::Switch(_) => true,
        CurrentView::UseItem(_) => true,
        _ => false,
    }
}

/// Frames that the current action takes at most, beyond its animations.
pub open spec fn current_cost(m: Model, c: CurrentView) -> nat {
    match c {
        CurrentView::Move(ts) => ts.len() + (if m.page < 1 { 1nat } else { 0nat }) + 1,
        CurrentView::Switch(_) => (m.pages.len() - m.page) as nat + 1,
        CurrentView::UseItem(_) => (m.pages.len() - m.page) as nat + 1,
        _ => 0,
    }
}

/// A bound on the frames left in a calm turn.
pub open spec fn frames_left(m: Model, cur: Option<InProgressView>) -> nat {
    anim(m) + match cur {
        Some(c) => current_cost(m, c.current),
        None => 0,
    } + queue_cost(m.pending) + 1
}

/// The input of a frame in which the text moves on and nobody chooses anything.
pub open spec fn frame_go() -> FrameInput {
    FrameInput {
        advance_text: true,
        choice: None,
        selection: None,
        transition_done: false,
        forfeit: false,
    }
}

proof fn lemma_calm_effect(m: Model, loc: ActorRef, e: Effect, cat: Catalog, waiting: nat)
    requires
        calm_effect(e),
    ensures
        ({
            let r = apply_effect(m, loc, e, cat, waiting);
            &&& r.pending == m.pending
            &&& r.page == m.page
            &&& r.outbox == m.outbox
            &&& r.pages.len() >= m.pages.len()
            &&& r.teams.len() == m.teams.len()
            &&& anim(r) <= anim(m) + hit_steps()
        }),
{
    if let Some((p, j)) = m.member(loc) {
        let t = m.teams[p];
        let mon = t.party[j];
        let slot = loc.slot as int;
        if !mon.fainted() {
            match e {
                Effect::SetHp(hp) => {
                    let t1 = t.with_member(j, mon.with_hp(hp));
                    lemma_visual_changed(m, p, t1, slot, crate::model::hit_visual(t.visuals[slot], hp));
                },
                Effect::StatStageChange(stat, delta) => {
                    lemma_team_visuals_kept(m, p, t.with_member(j, mon.with_stage_change(stat, delta)));
                },
                Effect::Ailment(a) => {
                    lemma_team_visuals_kept(m, p, t.with_member(j, mon.with_ailment(a)));
                },
                _ => {},
            }
        }
    }
}

proof fn lemma_calm_effects(m: Model, loc: ActorRef, effects: Seq<Effect>, cat: Catalog, waiting: nat)
    requires
        forall|i: int| 0 <= i < effects.len() ==> calm_effect(#[trigger] effects[i]),
    ensures
        ({
            let r = apply_effects(m, loc, effects, cat, waiting);
            &&& r.pending == m.pending
            &&& r.page == m.page
            &&& r.outbox == m.outbox
            &&& r.pages.len() >= m.pages.len()
            &&& r.teams.len() == m.teams.len()
            &&& anim(r) <= anim(m) + effects.len() * hit_steps()
        }),
    decreases effects.len(),
{
    if effects.len() > 0 {
        let m1 = apply_effects(m, loc, effects.drop_last(), cat, waiting);
        lemma_calm_effects(m, loc, effects.drop_last(), cat, waiting);
        assert(calm_effect(effects[effects.len() - 1]));
        lemma_calm_effect(m1, loc, effects.last(), cat, waiting);
        assert(anim(m1) <= anim(m) + (effects.len() - 1) * hit_steps());
        assert((effects.len() - 1) * hit_steps() + hit_steps() == effects.len() * hit_steps())
            by (nonlinear_arith);
    }
}

proof fn lemma_calm_outcomes(m: Model, outcomes: Seq<OutcomeView>, cat: Catalog, waiting: nat)
    requires
        forall|k: int, i: int|
            0 <= k < outcomes.len() && 0 <= i < outcomes[k].effects.len() ==> calm_effect(
                #[trigger] outcomes[k].effects[i],
            ),
    ensures
        ({
            let r = apply_outcomes(m, outcomes, cat, waiting);
            &&& r.pending == m.pending
            &&& r.page == m.page
            &&& r.outbox == m.outbox
            &&& r.pages.len() >= m.pages.len()
            &&& r.teams.len() == m.teams.len()
            &&& anim(r) <= anim(m) + effect_count(outcomes) * hit_steps()
        }),
    decreases outcomes.len(),
{
    if outcomes.len() > 0 {
        let o = outcomes.last();
        let m1 = apply_outcomes(m, outcomes.drop_last(), cat, waiting);
        assert forall|k: int, i: int|
            0 <= k < outcomes.drop_last().len() && 0 <= i < outcomes.drop_last()[k].effects.len()
                implies calm_effect(#[trigger] outcomes.drop_last()[k].effects[i]) by {
            assert(outcomes.drop_last()[k] == outcomes[k]);
        }
        lemma_calm_outcomes(m, outcomes.drop_last(), cat, waiting);
        assert forall|i: int| 0 <= i < o.effects.len() implies calm_effect(#[trigger] o.effects[i]) by {
            assert(o == outcomes[outcomes.len() - 1]);
        }
        lemma_calm_effects(m1, o.location, o.effects, cat, waiting);
        assert(effect_count(outcomes) * hit_steps() == effect_count(outcomes.drop_last())
            * hit_steps() + o.effects.len() * hit_steps()) by (nonlinear_arith)
            requires
                effect_count(outcomes) == effect_count(outcomes.drop_last()) + o.effects.len(),
        ;
    }
}

proof fn lemma_calm_dispatch(m: Model, a: PendingView, cat: Catalog, local: u64, wild: bool)
    requires
        calm_action(a, cat),
        m.page == 0,
        m.pages.len() == 0,
    ensures
        ({
            let (m1, c) = dispatch_spec(m, a, cat, local, wild);
            &&& m1.pending == m.pending
            &&& m1.outbox == m.outbox
            &&& m1.teams.len() == m.teams.len()
            &&& c is None ==> m1 == m
            &&& c is Some ==> calm_current(m1, c->0) && anim(m1) + current_cost(m1, c->0) < anim(m)
                + cost(a)
        }),
{
    let r = a.actor;
    if !(crate::action::kind_requires_user(a.kind) && !m.occupied(r)) {
        if let ActionView::Move { move_id, pp_cost, outcomes } = a.kind {
            if cat.move_spec(move_id) is Some {
                let (p, j) = m.member(r)->0;
                let who = crate::text::MemberRef { team: r.team, member: j as usize };
                let t = m.teams[p];
                let t1 = t.with_member(j, t.party[j].with_pp_spent(move_id, pp_cost));
                lemma_team_visuals_kept(m, p, t1);
                let m1 = m.with_team(p, t1).say(crate::text::TextPage::Used { user: who, move_id });
                lemma_calm_outcomes(m1, outcomes, cat, m.pending.len());
                assert(crate::model::locations(outcomes).len() == outcomes.len());
            }
        }
    }
}

proof fn lemma_swap_in(m: Model, r: ActorRef, new: Option<usize>)
    ensures
        ({
            let m1 = m.swap_in(r, new);
            &&& anim(m1) == anim(m)
            &&& m1.pending == m.pending
            &&& m1.pages == m.pages
            &&& m1.page == m.page
            &&& m1.outbox == m.outbox
            &&& m1.teams.len() == m.teams.len()
        }),
{
    if let Some(p) = m.team_of(r.team) {
        let t = m.teams[p];
        let slot = r.slot as int;
        let t1 = t.with_active(slot, new);
        lemma_visual_changed(m, p, t1, slot, crate::model::shown_visual(t.visuals[slot], new));
    }
}

proof fn lemma_set_visual(m: Model, r: ActorRef, v: SlotVisual)
    requires
        m.visual(r) is Some,
    ensures
        ({
            let m1 = m.set_visual(r, v);
            &&& anim(m1) + steps_left(m.visual(r)->0) == anim(m) + steps_left(v)
            &&& m1.pending == m.pending
            &&& m1.pages == m.pages
            &&& m1.page == m.page
            &&& m1.outbox == m.outbox
            &&& m1.teams.len() == m.teams.len()
        }),
{
    let p = m.team_of(r.team)->0;
    lemma_visual_changed(m, p, m.teams[p], r.slot as int, v);
}

proof fn lemma_step_targets(m: Model, ts: Seq<ActorRef>)
    ensures
        ({
            let (m1, kept) = step_targets(m, ts);
            &&& anim(m1) + kept.len() <= anim(m)
            &&& kept.len() <= ts.len()
            &&& m1.pending == m.pending
            &&& m1.pages == m.pages
            &&& m1.page == m.page
            &&& m1.outbox == m.outbox
            &&& m1.teams.len() == m.teams.len()
        }),
    decreases ts.len(),
{
    if ts.len() > 0 {
        let (m1, kept) = step_targets(m, ts.drop_last());
        lemma_step_targets(m, ts.drop_last());
        let t = ts.last();
        if let Some(v) = m1.visual(t) {
            if crate::model::hp_animating(v) {
                lemma_set_visual(m1, t, crate::model::hp_stepped(v));
            }
        }
    }
}

proof fn lemma_calm_advance(m: Model, cur: InProgressView, cat: Catalog, local: u64)
    requires
        calm_current(m, cur.current),
    ensures
        ({
            let (m1, n) = advance_spec(m, cur, frame_go(), cat, local);
            &&& m1.pending == m.pending
            &&& m1.outbox == m.outbox
            &&& m1.teams.len() == m.teams.len()
            &&& n is Some ==> calm_current(m1, n->0) && anim(m1) + current_cost(m1, n->0) < anim(m)
                + current_cost(m, cur.current)
            &&& n is None ==> anim(m1) < anim(m) + current_cost(m, cur.current)
        }),
{
    let r = cur.actor;
    if let Some(p) = m.team_of(r.team) {
        match cur.current {
            CurrentView::Move(targets) => {
                let m0 = m.text_step(true);
                lemma_step_targets(m0, targets);
            },
            CurrentView::Switch(n) => {
                if !m.finished() {
                    lemma_swap_in(m.text_step(true), r, Some(n));
                }
            },
            CurrentView::UseItem(target) => {
                if m.finished() {
                    if let Some(v) = m.visual(target) {
                        if v.hp_bar > 0 {
                            lemma_set_visual(m, target, crate::model::hp_stepped(v));
                        }
                    }
                }
            },
            _ => {},
        }
    }
}

proof fn lemma_calm_next(m: Model, cat: Catalog, local: u64, wild: bool, fuel: nat)
    requires
        all_calm(m.pending, cat),
        fuel >= m.pending.len(),
    ensures
        ({
            let (m1, c) = next_action(m, cat, local, wild, fuel);
            &&& m1.outbox == m.outbox
            &&& m1.teams.len() == m.teams.len()
            &&& all_calm(m1.pending, cat)
            &&& c is None ==> m1.pending.len() == 0 && anim(m1) + queue_cost(m1.pending) <= anim(m)
                + queue_cost(m.pending)
            &&& c is Some ==> calm_current(m1, c->0.current) && anim(m1) + current_cost(
                m1,
                c->0.current,
            ) + queue_cost(m1.pending) < anim(m) + queue_cost(m.pending)
        }),
    decreases fuel,
{
    if fuel > 0 && m.pending.len() > 0 {
        let a = m.pending[0];
        let m0 = popped(m);
        assert(calm_action(a, cat));
        assert forall|i: int| 0 <= i < m0.pending.len() implies calm_action(
            #[trigger] m0.pending[i],
            cat,
        ) by {
            assert(m0.pending[i] == m.pending[i + 1]);
        }
        lemma_calm_dispatch(m0, a, cat, local, wild);
        let (m1, c) = dispatch_spec(m0, a, cat, local, wild);
        if c is None {
            lemma_calm_next(m1, cat, local, wild, (fuel - 1) as nat);
        }
    }
}

pub(crate) proof fn lemma_calm_tick(m: Model, cur: Option<InProgressView>, cat: Catalog, local: u64, wild: bool)
    requires
        all_calm(m.pending, cat),
        cur matches Some(c) ==> calm_current(m, c.current),
    ensures
        ({
            let (m1, c1, going) = turn_tick(m, cur, frame_go(), cat, local, wild);
            &&& going ==> {
                &&& frames_left(m1, c1) < frames_left(m, cur)
                &&& m1.outbox == m.outbox
                &&& all_calm(m1.pending, cat)
                &&& c1 matches Some(c) ==> calm_current(m1, c.current)
            }
            &&& !going ==> {
                &&& frames_left(m1, c1) <= frames_left(m, cur)
                &&& c1 is None
                &&& m1.pending.len() == 0
                &&& m1.outbox == m.outbox.push(ClientMessage::FinishedTurnQueue)
            }
        }),
{
    match cur {
        None => lemma_calm_next(m, cat, local, wild, m.pending.len()),
        Some(c) => lemma_calm_advance(m, c, cat, local),
    }
}

/// The state after at most `n` frames of a turn in which the text moves on in
/// every frame and nobody chooses anything, as `update` plays them; the last
/// value is whether the turn still goes on.
pub open spec fn drive(
    m: Model,
    cur: Option<InProgressView>,
    n: nat,
    cat: Catalog,
    local: u64,
    wild: bool,
) -> (Model, Option<InProgressView>, bool)
    decreases n,
{
    if n == 0 {
        (m, cur, true)
    } else {
        let (m1, c1, going) = turn_tick(m, cur, frame_go(), cat, local, wild);
        if going {
            drive(m1, c1, (n - 1) as nat, cat, local, wild)
        } else {
            (m1, c1, false)
        }
    }
}

pub(crate) proof fn lemma_drive(
    m: Model,
    cur: Option<InProgressView>,
    n: nat,
    cat: Catalog,
    local: u64,
    wild: bool,
)
    requires
        all_calm(m.pending, cat),
        cur matches Some(c) ==> calm_current(m, c.current),
        n >= frames_left(m, cur),
    ensures
        ({
            let (m1, c1, going) = drive(m, cur, n, cat, local, wild);
            &&& !going
            &&& c1 is None
            &&& m1.pending.len() == 0
            &&& m1.outbox == m.outbox.push(ClientMessage::FinishedTurnQueue)
        }),
    decreases n,
{
    lemma_calm_tick(m, cur, cat, local, wild);
    let (m1, c1, going) = turn_tick(m, cur, frame_go(), cat, local, wild);
    if going {
        lemma_drive(m1, c1, (n - 1) as nat, cat, local, wild);
    }
}

/// Queue drains: a turn whose queued actions are all calm (moves whose effects
/// knock nobody out, trigger no faint and give no experience, items other than
/// balls, switches) ends within `frames_left` frames when the text moves on in
/// every frame: the queue is empty, nothing is in progress, and exactly one
/// message, the end of the turn, has gone to the authority.
pub proof fn calm_turn_drains(m: Model, cat: Catalog, local: u64, wild: bool)
    requires
        all_calm(m.pending, cat),
    ensures
        ({
            let (m1, c1, going) = drive(m, None, frames_left(m, None), cat, local, wild);
            &&& !going
            &&& c1 is None
            &&& m1.pending.len() == 0
            &&& m1.outbox == m.outbox.push(ClientMessage::FinishedTurnQueue)
        }),
{
    lemma_drive(m, None, frames_left(m, None), cat, local, wild);
}

} // verus!