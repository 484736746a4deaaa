use vstd::prelude::*;
use crate::action::{kind_requires_user, ActionView, ActorRef, CurrentView, Effect, InProgressView, LearnStage, OutcomeView, PendingView};
use crate::catalog::Catalog;
use crate::model::{
    advance_spec, apply_effect, apply_effects, apply_outcomes, dispatch_spec, faint_of, has_faint,
    next_action, popped, Choice, ClientMessage, FrameInput, Model,
};

verus! {

/// `old` is what stands at the back of `new`, in order.
pub open spec fn behind(new: Seq<PendingView>, old: Seq<PendingView>) -> bool {
    new.len() >= old.len() && new.subrange(new.len() - old.len(), new.len() as int) == old
}

/// A faint of `t` stands in `new` in front of the part that is `old`.
pub open spec fn faint_in_front(new: Seq<PendingView>, old: Seq<PendingView>, t: ActorRef) -> bool {
    exists|i: int| 0 <= i < new.len() - old.len() && #[trigger] new[i] == faint_of(t)
}

proof fn lemma_behind_trans(a: Seq<PendingView>, b: Seq<PendingView>, c: Seq<PendingView>)
    requires
        behind(a, b),
        behind(b, c),
    ensures
        behind(a, c),
{
    assert(a.subrange(a.len() - c.len(), a.len() as int) =~= c);
}

proof fn lemma_cascade_behind(m: Model, x: PendingView)
    ensures
        behind(m.cascade(x).pending, m.pending),
{
    assert(m.cascade(x).pending.subrange(1, m.pending.len() as int + 1) =~= m.pending);
}

proof fn lemma_effect_behind(m: Model, loc: ActorRef, e: Effect, cat: Catalog, waiting: nat)
    ensures
        behind(apply_effect(m, loc, e, cat, waiting).pending, m.pending),
{
    assert(m.pending.subrange(0, m.pending.len() as int) =~= m.pending);
    let f = m.cascade(faint_of(loc));
    lemma_cascade_behind(m, faint_of(loc));
    if let Effect::FaintTrigger(t) = e {
        lemma_cascade_behind(m, faint_of(t));
    }
    if let Some((p, j)) = m.member(loc) {
        let t = m.teams[p];
        let mon = t.party[j];
        if let Effect::SetHp(hp) = e {
            let m1 = m.with_team(
                p,
                t.with_member(j, mon.with_hp(hp)).with_visual(
                    loc.slot as int,
                    crate::model::hit_visual(t.visuals[loc.slot as int], hp),
                ),
            );
            lemma_cascade_behind(m1, faint_of(loc));
        }
        if let Effect::GainExp(x, l) = e {
            let (grown, offered) = mon.grown_into(l, cat);
            lemma_cascade_behind(
                m.with_team(p, t.with_member(j, grown)),
                PendingView {
                    actor: loc,
                    kind: ActionView::SetExp {
                        previous_level: mon.level,
                        new_experience: x,
                        new_level: l,
                        learnable_moves: offered,
                    },
                },
            );
        }
    }
}

proof fn lemma_effects_behind(m: Model, loc: ActorRef, effects: Seq<Effect>, cat: Catalog, waiting: nat)
    ensures
        behind(apply_effects(m, loc, effects, cat, waiting).pending, m.pending),
    decreases effects.len(),
{
    if effects.len() == 0 {
        assert(m.pending.subrange(0, m.pending.len() as int) =~= m.pending);
    } else {
        let m1 = apply_effects(m, loc, effects.drop_last(), cat, waiting);
        lemma_effects_behind(m, loc, effects.drop_last(), cat, waiting);
        lemma_effect_behind(m1, loc, effects.last(), cat, waiting);
        lemma_behind_trans(apply_effect(m1, loc, effects.last(), cat, waiting).pending, m1.pending, m.pending);
    }
}

proof fn lemma_outcomes_behind(m: Model, outcomes: Seq<OutcomeView>, cat: Catalog, waiting: nat)
    ensures
        behind(apply_outcomes(m, outcomes, cat, waiting).pending, m.pending),
    decreases outcomes.len(),
{
    if outcomes.len() == 0 {
        assert(m.pending.subrange(0, m.pending.len() as int) =~= m.pending);
    } else {
        let o = outcomes.last();
        let m1 = apply_outcomes(m, outcomes.drop_last(), cat, waiting);
        lemma_outcomes_behind(m, outcomes.drop_last(), cat, waiting);
        lemma_effects_behind(m1, o.location, o.effects, cat, waiting);
        lemma_behind_trans(apply_effects(m1, o.location, o.effects, cat, waiting).pending, m1.pending, m.pending);
    }
}

/// Cascade priority: whatever starting an action queues goes in front of the
/// actions that were already waiting, which keep their order behind it. The
/// queue is taken from the front, so every cascade starts before any of them.
pub proof fn cascades_go_first(m: Model, a: PendingView, cat: Catalog, local: u64, wild: bool)
    ensures
        behind(dispatch_spec(m, a, cat, local, wild).0.pending, m.pending),
{
    assert(m.pending.subrange(0, m.pending.len() as int) =~= m.pending);
    let r = a.actor;
    let slot = r.slot as int;
    if !(kind_requires_user(a.kind) && !m.occupied(r)) {
        match a.kind {
            ActionView::Move { move_id, pp_cost, outcomes } => {
                let (p, j) = m.member(r)->0;
                let who = crate::text::MemberRef { team: r.team, member: j as usize };
                let t = m.teams[p];
                let m1 = m.with_team(p, t.with_member(j, t.party[j].with_pp_spent(move_id, pp_cost))).say(
                    crate::text::TextPage::Used { user: who, move_id },
                );
                lemma_outcomes_behind(m1, outcomes, cat, m.pending.len());
            },
            ActionView::UseItem { item_id, target } => {
                if let Some(entry) = cat.item_spec(item_id) {
                    if let Some(tr) = crate::model::item_target(r, target, entry.usage, local) {
                        lemma_cascade_behind(m, PendingView { actor: tr, kind: ActionView::Catch });
                    }
                }
            },
            ActionView::SetExp { previous_level, new_experience, new_level, learnable_moves } => {
                let (p, j) = m.member(r)->0;
                let t = m.teams[p];
                let m1 = m.with_team(
                    p,
                    t.with_member(j, t.party[j].with_progress(new_level, new_experience)).with_visual(
                        slot,
                        crate::model::exp_visual(t.visuals[slot]),
                    ),
                ).say(
                    crate::text::TextPage::GainedExp {
                        who: crate::text::MemberRef { team: r.team, member: j as usize },
                        experience: new_experience,
                        level: new_level,
                    },
                );
                lemma_cascade_behind(m1, PendingView { actor: r, kind: ActionView::LevelUp(learnable_moves) });
            },
            _ => {},
        }
    }
}

/// Stale skip: an action that needs its actor, popped while the actor's slot
/// is empty, changes nothing (no roster change, no animation step, no page) and
/// starts nothing; the sequencer goes straight on to the next one.
pub proof fn stale_action_is_skipped(m: Model, cat: Catalog, local: u64, wild: bool, fuel: nat)
    requires
        m.pending.len() > 0,
        kind_requires_user(m.pending[0].kind),
        !m.occupied(m.pending[0].actor),
    ensures
        dispatch_spec(popped(m), m.pending[0], cat, local, wild) == (popped(m), None::<CurrentView>),
        next_action(m, cat, local, wild, fuel + 1) == next_action(popped(m), cat, local, wild, fuel),
{
    assert(popped(m).member(m.pending[0].actor) == m.member(m.pending[0].actor));
}

proof fn lemma_front_kept(
    new: Seq<PendingView>,
    mid: Seq<PendingView>,
    base: Seq<PendingView>,
    t: ActorRef,
)
    requires
        behind(new, mid),
        behind(mid, base),
        faint_in_front(mid, base, t),
    ensures
        faint_in_front(new, base, t),
{
    let i = choose|i: int| 0 <= i < mid.len() - base.len() && #[trigger] mid[i] == faint_of(t);
    let d = new.len() - mid.len();
    assert(new.subrange(d, new.len() as int)[i] == new[i + d]);
    assert(new[i + d] == faint_of(t));
}

proof fn lemma_trigger_in_front(
    m: Model,
    loc: ActorRef,
    base: Seq<PendingView>,
    t: ActorRef,
    cat: Catalog,
    waiting: nat,
)
    requires
        behind(m.pending, base),
        waiting == base.len(),
    ensures
        faint_in_front(apply_effect(m, loc, Effect::FaintTrigger(t), cat, waiting).pending, base, t),
{
    let n = apply_effect(m, loc, Effect::FaintTrigger(t), cat, waiting).pending;
    let front = m.pending.take(m.pending.len() - waiting);
    if has_faint(front, t) {
        let i = choose|i: int| 0 <= i < front.len() && #[trigger] front[i] == faint_of(t);
        assert(n[i] == front[i]);
    } else {
        assert(n[0] == faint_of(t));
    }
}

proof fn lemma_effects_front(
    m: Model,
    loc: ActorRef,
    effects: Seq<Effect>,
    base: Seq<PendingView>,
    t: ActorRef,
    e: int,
    cat: Catalog,
    waiting: nat,
)
    requires
        behind(m.pending, base),
        waiting == base.len(),
        faint_in_front(m.pending, base, t) || (0 <= e < effects.len() && effects[e]
            == Effect::FaintTrigger(t)),
    ensures
        faint_in_front(apply_effects(m, loc, effects, cat, waiting).pending, base, t),
    decreases effects.len(),
{
    if effects.len() > 0 {
        let m1 = apply_effects(m, loc, effects.drop_last(), cat, waiting);
        let last = effects.last();
        lemma_effects_behind(m, loc, effects.drop_last(), cat, waiting);
        lemma_behind_trans(m1.pending, m.pending, base);
        if e == effects.len() - 1 && !faint_in_front(m.pending, base, t) {
            lemma_trigger_in_front(m1, loc, base, t, cat, waiting);
        } else {
            lemma_effects_front(m, loc, effects.drop_last(), base, t, e, cat, waiting);
            lemma_effect_behind(m1, loc, last, cat, waiting);
            lemma_front_kept(apply_effect(m1, loc, last, cat, waiting).pending, m1.pending, base, t);
        }
    }
}

proof fn lemma_outcomes_front(
    m: Model,
    outcomes: Seq<OutcomeView>,
    base: Seq<PendingView>,
    t: ActorRef,
    k: int,
    e: int,
    cat: Catalog,
    waiting: nat,
)
    requires
        behind(m.pending, base),
        waiting == base.len(),
        faint_in_front(m.pending, base, t) || (0 <= k < outcomes.len() && 0 <= e
            < outcomes[k].effects.len() && outcomes[k].effects[e] == Effect::FaintTrigger(t)),
    ensures
        faint_in_front(apply_outcomes(m, outcomes, cat, waiting).pending, base, t),
    decreases outcomes.len(),
{
    if outcomes.len() > 0 {
        let o = outcomes.last();
        let m1 = apply_outcomes(m, outcomes.drop_last(), cat, waiting);
        lemma_outcomes_behind(m, outcomes.drop_last(), cat, waiting);
        lemma_behind_trans(m1.pending, m.pending, base);
        if k == outcomes.len() - 1 && !faint_in_front(m.pending, base, t) {
            lemma_effects_front(m1, o.location, o.effects, base, t, e, cat, waiting);
        } else {
            lemma_outcomes_front(m, outcomes.drop_last(), base, t, k, e, cat, waiting);
            lemma_effects_front(m1, o.location, o.effects, base, t, -1, cat, waiting);
        }
    }
}

/// Faint before replacement: when a move's outcome carries a faint trigger
/// for `t`, starting the move queues a faint of `t` in front of every action
/// that was already waiting, so it is played before any of them can reach `t`.
pub proof fn faint_trigger_goes_first(
    m: Model,
    a: PendingView,
    cat: Catalog,
    local: u64,
    wild: bool,
    t: ActorRef,
    k: int,
    e: int,
)
    requires
        a.kind is Move,
        m.occupied(a.actor),
        cat.move_spec(a.kind->Move_move_id) is Some,
        0 <= k < a.kind->Move_outcomes.len(),
        0 <= e < a.kind->Move_outcomes[k].effects.len(),
        a.kind->Move_outcomes[k].effects[e] == Effect::FaintTrigger(t),
    ensures
        faint_in_front(dispatch_spec(m, a, cat, local, wild).0.pending, m.pending, t),
{
    let r = a.actor;
    let move_id = a.kind->Move_move_id;
    let (p, j) = m.member(r)->0;
    let who = crate::text::MemberRef { team: r.team, member: j as usize };
    let tm = m.teams[p];
    let m1 = m.with_team(p, tm.with_member(j, tm.party[j].with_pp_spent(move_id, a.kind->Move_pp_cost))).say(
        crate::text::TextPage::Used { user: who, move_id },
    );
    assert(m.pending.subrange(0, m.pending.len() as int) =~= m.pending);
    lemma_outcomes_front(m1, a.kind->Move_outcomes, m.pending, t, k, e, cat, m.pending.len());
}

/// Level-up closure, first half: a level-up with no move to offer is dropped
/// the moment it is popped; no action is left in progress for it.
pub proof fn empty_level_up_is_dropped(m: Model, cat: Catalog, local: u64, wild: bool, fuel: nat)
    requires
        m.pending.len() > 0,
        m.pending[0].kind == ActionView::LevelUp(Seq::empty()),
    ensures
        dispatch_spec(popped(m), m.pending[0], cat, local, wild).1 is None,
        next_action(m, cat, local, wild, fuel + 1) == next_action(popped(m), cat, local, wild, fuel),
{
}

/// Level-up closure, second half: a level-up with moves to offer completes
/// only on a decision (learn or decline) on its last move; each frame takes
/// at most one move off the list, only on a decision, and tells the authority
/// of a learned move exactly when the decision was to learn.
pub proof fn level_up_needs_a_decision_per_move(
    m: Model,
    actor: ActorRef,
    moves: Seq<u32>,
    stage: LearnStage,
    input: FrameInput,
    cat: Catalog,
    local: u64,
)
    requires
        moves.len() > 0,
        m.occupied(actor),
    ensures
        ({
            let (m1, n) = advance_spec(
                m,
                InProgressView { actor, current: CurrentView::LevelUp(moves, stage) },
                input,
                cat,
                local,
            );
            let decided = stage == LearnStage::Choosing && (input.choice matches Some(
                Choice::Learn(_),
            ) || input.choice == Some(Choice::Decline));
            &&& !decided ==> (n matches Some(CurrentView::LevelUp(ms, _)) && ms == moves)
            &&& decided ==> (n is None <==> moves.len() == 1)
            &&& decided && n is Some ==> (n matches Some(CurrentView::LevelUp(ms, _)) && ms
                == moves.drop_first())
            &&& (decided && input.choice matches Some(Choice::Learn(_))) ==> m1.outbox.len()
                == m.outbox.len() + 1 && m1.outbox.last() is LearnMove
            &&& !(decided && input.choice matches Some(Choice::Learn(_))) ==> m1.outbox
                == m.outbox
        }),
{
}

} // verus!
