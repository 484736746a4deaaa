use vstd::prelude::*;

verus! {

/// One battle slot: a team and the index of one of its active slots.
/// It is resolved against the roster on every use and may have become empty.
#[derive(Clone, Copy, Debug, PartialEq, Eq, Structural)]
pub struct ActorRef {
    pub team: u64,
    pub slot: usize,
}

/// How effective a move was against its target.
#[derive(Clone, Copy, Debug, PartialEq, Eq, Structural)]
pub enum Effectiveness {
    Ineffective,
    NotVeryEffective,
    Effective,
    SuperEffective,
}

/// One resolved effect of a move on one target.
#[derive(Clone, Copy, Debug, PartialEq, Eq, Structural)]
pub enum Effect {
    /// Remaining health, in thousandths of the maximum.
    SetHp(u16),
    Miss,
    Fail,
    CriticalHit,
    Effectiveness(Effectiveness),
    /// A stat index and a change of its stage.
    StatStageChange(u8, i8),
    /// An ailment identifier.
    Ailment(u8),
    /// The given actor faints as a result of the move.
    FaintTrigger(ActorRef),
    /// The new experience total and the new level.
    GainExp(u32, u8),
}

/// The effects of a move on one target.
#[derive(Clone, Debug)]
pub struct TargetOutcome {
    pub location: ActorRef,
    pub effects: Vec<Effect>,
}

pub struct OutcomeView {
    pub location: ActorRef,
    pub effects: Seq<Effect>,
}

impl View for TargetOutcome {
    type V = OutcomeView;

    open spec fn view(&self) -> OutcomeView {
        OutcomeView { location: self.location, effects: self.effects@ }
    }
}

/// A queued battle action. Moves, items and switches are declared by the
/// authority; the other kinds only arise as cascades of earlier actions.
#[derive(Clone, Debug)]
pub enum BattleClientGuiAction {
    Move { move_id: u32, pp_cost: u8, outcomes: Vec<TargetOutcome> },
    UseItem { item_id: u32, target: ActorRef },
    Switch(usize),
    Faint,
    Catch,
    Replace(Option<usize>),
    SetExp { previous_level: u8, new_experience: u32, new_level: u8, learnable_moves: Vec<u32> },
    LevelUp(Vec<u32>),
}

pub enum ActionView {
    Move { move_id: u32, pp_cost: u8, outcomes: Seq<OutcomeView> },
    UseItem { item_id: u32, target: ActorRef },
    Switch(usize),
    Faint,
    Catch,
    Replace(Option<usize>),
    SetExp { previous_level: u8, new_experience: u32, new_level: u8, learnable_moves: Seq<u32> },
    LevelUp(Seq<u32>),
}

impl View for BattleClientGuiAction {
    type V = ActionView;

    open spec fn view(&self) -> ActionView {
        match self {
            BattleClientGuiAction::Move { move_id, pp_cost, outcomes } => ActionView::Move {
                move_id: *move_id,
                pp_cost: *pp_cost,
                outcomes: outcomes@.map_values(|o: TargetOutcome| o@),
            },
            BattleClientGuiAction::UseItem { item_id, target } => ActionView::UseItem {
                item_id: *item_id,
                target: *target,
            },
            BattleClientGuiAction::Switch(i) => ActionView::Switch(*i),
            BattleClientGuiAction::Faint => ActionView::Faint,
            BattleClientGuiAction::Catch => ActionView::Catch,
            BattleClientGuiAction::Replace(n) => ActionView::Replace(*n),
            BattleClientGuiAction::SetExp {
                previous_level,
                new_experience,
                new_level,
                learnable_moves,
            } => ActionView::SetExp {
                previous_level: *previous_level,
                new_experience: *new_experience,
                new_level: *new_level,
                learnable_moves: learnable_moves@,
            },
            BattleClientGuiAction::LevelUp(m) => ActionView::LevelUp(m@),
        }
    }
}

/// A kind that the authority declares; the others only arise as cascades.
pub open spec fn declared_kind(k: ActionView) -> bool {
    k is Move || k is UseItem || k is Switch
}

/// Whether an action of this kind is discarded when its actor's slot is empty.
pub open spec fn kind_requires_user(k: ActionView) -> bool {
    !(k is Faint || k is Replace)
}

impl BattleClientGuiAction {
    /// Every kind but `Faint` and `Replace` needs a living actor in its slot.
    pub fn requires_user(&self) -> (r: bool)
        ensures
            r == kind_requires_user(self@),
    {
        match self {
            BattleClientGuiAction::Faint => false,
            BattleClientGuiAction::Replace(_) => false,
            _ => true,
        }
    }
}

/// An action waiting in the turn queue.
#[derive(Clone, Debug)]
pub struct PendingAction {
    pub actor: ActorRef,
    pub kind: BattleClientGuiAction,
}

pub struct PendingView {
    pub actor: ActorRef,
    pub kind: ActionView,
}

impl View for PendingAction {
    type V = PendingView;

    open spec fn view(&self) -> PendingView {
        PendingView { actor: self.actor, kind: self.kind@ }
    }
}

/// Where the level-up prompt for one learnable move stands.
#[derive(Clone, Copy, Debug, PartialEq, Eq, Structural)]
pub enum LearnStage {
    /// The "trying to learn" page is shown.
    Prompt,
    /// The move picker is open and waits for a decision.
    Choosing,
}

/// The presentation state of the action being animated.
#[derive(Clone, Debug)]
pub enum BattleClientGuiCurrent {
    /// The targets whose animations are still running.
    Move(Vec<ActorRef>),
    /// The party index coming in.
    Switch(usize),
    UseItem(ActorRef),
    /// Whether the party picker has been opened for a replacement.
    Faint(bool),
    Catch,
    /// The party index coming in, and whether the roster swap has been made.
    Replace(Option<usize>, bool),
    SetExp,
    /// The moves still to be offered, and the stage of the first one.
    LevelUp(Vec<u32>, LearnStage),
}

pub enum CurrentView {
    Move(Seq<ActorRef>),
    Switch(usize),
    UseItem(ActorRef),
    Faint(bool),
    Catch,
    Replace(Option<usize>, bool),
    SetExp,
    LevelUp(Seq<u32>, LearnStage),
}

impl View for BattleClientGuiCurrent {
    type V = CurrentView;

    open spec fn view(&self) -> CurrentView {
        match self {
            BattleClientGuiCurrent::Move(t) => CurrentView::Move(t@),
            BattleClientGuiCurrent::Switch(i) => CurrentView::Switch(*i),
            BattleClientGuiCurrent::UseItem(t) => CurrentView::UseItem(*t),
            BattleClientGuiCurrent::Faint(b) => CurrentView::Faint(*b),
            BattleClientGuiCurrent::Catch => CurrentView::Catch,
            BattleClientGuiCurrent::Replace(n, b) => CurrentView::Replace(*n, *b),
            BattleClientGuiCurrent::SetExp => CurrentView::SetExp,
            BattleClientGuiCurrent::LevelUp(m, s) => CurrentView::LevelUp(m@, *s),
        }
    }
}

/// The action being animated, with the actor it belongs to.
#[derive(Clone, Debug)]
pub struct InProgressAction {
    pub actor: ActorRef,
    pub current: BattleClientGuiCurrent,
}

pub struct InProgressView {
    pub actor: ActorRef,
    pub current: CurrentView,
}

impl View for InProgressAction {
    type V = InProgressView;

    open spec fn view(&self) -> InProgressView {
        InProgressView { actor: self.actor, current: self.current@ }
    }
}

} // verus!
