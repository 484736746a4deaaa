use battle_gui::action::{
    ActorRef, BattleClientGuiAction, BattleClientGuiCurrent, Effect, Effectiveness, LearnStage,
    PendingAction, TargetOutcome,
};
use battle_gui::catalog::{Catalog, ItemEntry, ItemUsage, MoveEntry};
use battle_gui::model::{BattleMove, Choice, ClientMessage, FrameInput, BAR_STEPS, FAINT_STEPS, FLICKER_STEPS};
use battle_gui::roster::{Learnable, Monster, MoveSlot, SlotVisual};
use battle_gui::sequencer::{BattlePlayerGui, BattlePlayerState, ServerMessage};
use battle_gui::team::Team;
use battle_gui::text::{MemberRef, TextPage};

const LOCAL: u64 = 1;
const REMOTE: u64 = 2;
const TACKLE: u32 = 33;
const GROWL: u32 = 45;
const EMBER: u32 = 52;
const POTION: u32 = 17;
const BALL: u32 = 4;

fn monster(name: &str, level: u8, hp: u16) -> Monster {
    Monster {
        name: name.to_string(),
        level,
        experience: 100,
        hp,
        ailment: None,
        stages: vec![0; 7],
        moves: vec![MoveSlot { move_id: TACKLE, pp: 35 }, MoveSlot { move_id: GROWL, pp: 40 }],
        learnset: vec![
            Learnable { level: 5, move_id: EMBER },
            Learnable { level: 9, move_id: 99 },
        ],
        known: true,
    }
}

fn idle(shown: Option<usize>) -> SlotVisual {
    SlotVisual { flicker: 0, hp_bar: 0, exp_bar: 0, fainting: 0, shown }
}

fn team(id: u64, party: Vec<Monster>, active: Vec<Option<usize>>) -> Team {
    let visuals = active.iter().map(|a| idle(*a)).collect();
    Team { id, party, active, visuals }
}

fn catalog() -> Catalog {
    Catalog {
        moves: vec![
            MoveEntry { id: TACKLE, pp: 35 },
            MoveEntry { id: GROWL, pp: 40 },
            MoveEntry { id: EMBER, pp: 25 },
        ],
        items: vec![
            ItemEntry { id: POTION, usage: ItemUsage::Actions },
            ItemEntry { id: BALL, usage: ItemUsage::Pokeball },
        ],
    }
}

fn battle() -> BattlePlayerGui {
    let local = team(
        LOCAL,
        vec![monster("Bulbasaur", 4, 1000), monster("Pidgey", 3, 1000)],
        vec![Some(0)],
    );
    let remote = team(REMOTE, vec![monster("Rattata", 3, 1000)], vec![Some(0)]);
    let mut gui = BattlePlayerGui::new(vec![local, remote], catalog(), true);
    gui.start(false);
    gui
}

fn player_slot() -> ActorRef {
    ActorRef { team: LOCAL, slot: 0 }
}

fn opponent_slot() -> ActorRef {
    ActorRef { team: REMOTE, slot: 0 }
}

fn tackle(effects: Vec<Effect>) -> PendingAction {
    PendingAction {
        actor: player_slot(),
        kind: BattleClientGuiAction::Move {
            move_id: TACKLE,
            pp_cost: 1,
            outcomes: vec![TargetOutcome { location: opponent_slot(), effects }],
        },
    }
}

/// Starts a turn whose queue holds the given actions as they stand, cascade
/// kinds included.
fn queue_directly(gui: &mut BattlePlayerGui, actions: Vec<PendingAction>) {
    gui.process(ServerMessage::Turns(vec![]));
    for a in actions {
        gui.queue.actions.push_back(a);
    }
}

fn go() -> FrameInput {
    FrameInput { advance_text: true, choice: None, selection: None, transition_done: false, forfeit: false }
}

fn hold() -> FrameInput {
    FrameInput { advance_text: false, choice: None, selection: None, transition_done: false, forfeit: false }
}

fn with_choice(c: Choice) -> FrameInput {
    FrameInput { advance_text: true, choice: Some(c), selection: None, transition_done: false, forfeit: false }
}

/// Runs frames until the turn ends; returns how many were needed.
fn drain(gui: &mut BattlePlayerGui, input: FrameInput, limit: usize) -> usize {
    let mut n = 0;
    while gui.state == BattlePlayerState::Moving {
        assert!(n < limit, "turn did not end within {} frames", limit);
        gui.update(&input);
        n += 1;
    }
    n
}

#[test]
fn tackle_plays_one_page_and_one_bar() {
    let mut gui = battle();
    gui.process(ServerMessage::Turns(vec![tackle(vec![Effect::SetHp(300)])]));
    gui.update(&hold());
    assert_eq!(
        gui.text.pages,
        vec![TextPage::Used { user: MemberRef { team: LOCAL, member: 0 }, move_id: TACKLE }]
    );
    assert_eq!(gui.teams[1].visuals[0].hp_bar, BAR_STEPS);
    assert_eq!(gui.teams[1].visuals[0].flicker, FLICKER_STEPS);
    assert_eq!(gui.teams[1].party[0].hp, 300);
    assert_eq!(gui.teams[0].party[0].moves[0].pp, 34);
    assert!(gui.queue.actions.is_empty());
    let frames = drain(&mut gui, go(), 100);
    assert!(frames <= (BAR_STEPS as usize) + 3);
    assert_eq!(gui.take_messages(), vec![ClientMessage::FinishedTurnQueue]);
    assert_eq!(gui.state, BattlePlayerState::WaitToSelect);
}

#[test]
fn knockout_queues_faint_before_turn_ends() {
    let mut gui = battle();
    gui.process(ServerMessage::Turns(vec![tackle(vec![Effect::SetHp(0)])]));
    gui.update(&hold());
    assert_eq!(gui.queue.actions.len(), 1);
    assert_eq!(gui.queue.actions[0].actor, opponent_slot());
    assert!(matches!(gui.queue.actions[0].kind, BattleClientGuiAction::Faint));
    let mut saw_faint = false;
    let mut n = 0;
    while gui.state == BattlePlayerState::Moving {
        assert!(n < 200);
        if let Some(c) = &gui.queue.current {
            if matches!(c.current, BattleClientGuiCurrent::Faint(_)) {
                saw_faint = true;
            }
        }
        let before = gui.outbox.len();
        gui.update(&go());
        if gui.outbox.len() > before {
            assert!(saw_faint);
            assert!(gui.queue.current.is_none());
            assert_eq!(gui.teams[1].active[0], None);
        }
        n += 1;
    }
    assert!(saw_faint);
    assert_eq!(gui.take_messages(), vec![ClientMessage::FinishedTurnQueue]);
}

#[test]
fn gained_levels_offer_move_then_learn() {
    let mut gui = battle();
    queue_directly(&mut gui, vec![PendingAction {
        actor: player_slot(),
        kind: BattleClientGuiAction::SetExp {
            previous_level: 4,
            new_experience: 300,
            new_level: 6,
            learnable_moves: vec![EMBER],
        },
    }]);
    gui.update(&hold());
    assert!(matches!(gui.queue.current.as_ref().unwrap().current, BattleClientGuiCurrent::SetExp));
    assert_eq!(gui.queue.actions.len(), 1);
    assert!(matches!(&gui.queue.actions[0].kind, BattleClientGuiAction::LevelUp(m) if *m == vec![EMBER]));
    assert_eq!(gui.teams[0].party[0].level, 6);
    assert_eq!(gui.teams[0].party[0].experience, 300);
    // play until the move picker waits for a decision
    let mut n = 0;
    loop {
        assert!(n < 100);
        if let Some(c) = &gui.queue.current {
            if let BattleClientGuiCurrent::LevelUp(_, LearnStage::Choosing) = c.current {
                break;
            }
        }
        gui.update(&go());
        n += 1;
    }
    gui.update(&go());
    assert!(gui.queue.current.is_some());
    gui.update(&with_choice(Choice::Learn(1)));
    assert!(gui.queue.current.is_none());
    // a move set with free slots takes the learned move at its end
    assert_eq!(gui.teams[0].party[0].moves[2], MoveSlot { move_id: EMBER, pp: 25 });
    drain(&mut gui, go(), 10);
    assert_eq!(
        gui.take_messages(),
        vec![ClientMessage::LearnMove(0, EMBER, 1), ClientMessage::FinishedTurnQueue]
    );
}

#[test]
fn batch_without_cascades_drains_with_one_finish() {
    let mut gui = battle();
    let growl = PendingAction {
        actor: player_slot(),
        kind: BattleClientGuiAction::Move {
            move_id: GROWL,
            pp_cost: 1,
            outcomes: vec![TargetOutcome {
                location: opponent_slot(),
                effects: vec![Effect::StatStageChange(1, -1), Effect::Effectiveness(Effectiveness::Effective)],
            }],
        },
    };
    let switch = PendingAction { actor: player_slot(), kind: BattleClientGuiAction::Switch(1) };
    gui.process(ServerMessage::Turns(vec![tackle(vec![Effect::SetHp(800)]), growl, switch]));
    let frames = drain(&mut gui, go(), 200);
    assert!(frames < 60);
    assert_eq!(gui.take_messages(), vec![ClientMessage::FinishedTurnQueue]);
    assert!(gui.queue.actions.is_empty() && gui.queue.current.is_none());
    assert_eq!(gui.teams[1].party[0].stages[1], -1);
    assert_eq!(gui.teams[0].active[0], Some(1));
}

#[test]
fn faint_trigger_goes_before_waiting_actions() {
    let mut gui = battle();
    let second = tackle(vec![Effect::SetHp(500)]);
    let first = tackle(vec![Effect::SetHp(200), Effect::FaintTrigger(opponent_slot())]);
    gui.process(ServerMessage::Turns(vec![first, second]));
    gui.update(&hold());
    assert_eq!(gui.queue.actions.len(), 2);
    assert!(matches!(gui.queue.actions[0].kind, BattleClientGuiAction::Faint));
    assert_eq!(gui.queue.actions[0].actor, opponent_slot());
    assert!(matches!(gui.queue.actions[1].kind, BattleClientGuiAction::Move { .. }));
}

#[test]
fn stale_actor_is_skipped_in_the_same_frame() {
    let mut gui = battle();
    gui.teams[0].active[0] = None;
    let before = gui.teams[1].visuals.clone();
    gui.process(ServerMessage::Turns(vec![
        tackle(vec![Effect::SetHp(100)]),
        PendingAction { actor: opponent_slot(), kind: BattleClientGuiAction::Switch(0) },
    ]));
    gui.update(&hold());
    assert!(matches!(gui.queue.current.as_ref().unwrap().current, BattleClientGuiCurrent::Switch(0)));
    assert_eq!(gui.teams[1].visuals, before);
    assert_eq!(gui.teams[1].party[0].hp, 1000);
}

#[test]
fn only_stale_actions_end_the_turn_at_once() {
    let mut gui = battle();
    gui.teams[0].active[0] = None;
    gui.process(ServerMessage::Turns(vec![tackle(vec![Effect::SetHp(100)])]));
    gui.update(&hold());
    assert_eq!(gui.state, BattlePlayerState::WaitToSelect);
    assert_eq!(gui.take_messages(), vec![ClientMessage::FinishedTurnQueue]);
}

#[test]
fn empty_level_up_is_dropped() {
    let mut gui = battle();
    queue_directly(&mut gui, vec![
        PendingAction { actor: player_slot(), kind: BattleClientGuiAction::LevelUp(vec![]) },
    ]);
    gui.update(&hold());
    assert!(gui.queue.current.is_none());
    assert_eq!(gui.state, BattlePlayerState::WaitToSelect);
}

#[test]
fn declined_move_sends_nothing() {
    let mut gui = battle();
    queue_directly(&mut gui, vec![
        PendingAction { actor: player_slot(), kind: BattleClientGuiAction::LevelUp(vec![EMBER, GROWL]) },
    ]);
    gui.update(&hold());
    assert_eq!(
        gui.text.pages,
        vec![TextPage::TryingToLearn { who: MemberRef { team: LOCAL, member: 0 }, move_id: EMBER }]
    );
    gui.update(&go());
    gui.update(&hold());
    assert!(matches!(gui.queue.current.as_ref().unwrap().current, BattleClientGuiCurrent::LevelUp(_, LearnStage::Choosing)));
    gui.update(&with_choice(Choice::Decline));
    match &gui.queue.current.as_ref().unwrap().current {
        BattleClientGuiCurrent::LevelUp(m, LearnStage::Prompt) => assert_eq!(*m, vec![GROWL]),
        _ => panic!("the second move should be offered"),
    }
    assert!(gui.outbox.is_empty());
}

#[test]
fn unknown_move_degrades_to_a_failure_page() {
    let mut gui = battle();
    gui.process(ServerMessage::Turns(vec![PendingAction {
        actor: player_slot(),
        kind: BattleClientGuiAction::Move { move_id: 999, pp_cost: 1, outcomes: vec![] },
    }]));
    gui.update(&hold());
    assert_eq!(
        gui.text.pages,
        vec![TextPage::CannotUse { user: MemberRef { team: LOCAL, member: 0 }, move_id: 999 }]
    );
    drain(&mut gui, go(), 10);
    assert_eq!(gui.take_messages(), vec![ClientMessage::FinishedTurnQueue]);
}

#[test]
fn ball_queues_a_catch() {
    let mut gui = battle();
    gui.process(ServerMessage::Turns(vec![PendingAction {
        actor: player_slot(),
        kind: BattleClientGuiAction::UseItem { item_id: BALL, target: opponent_slot() },
    }]));
    gui.update(&hold());
    assert_eq!(
        gui.text.pages,
        vec![TextPage::ItemUsed { item_id: BALL, target: MemberRef { team: REMOTE, member: 0 } }]
    );
    assert!(matches!(gui.queue.actions[0].kind, BattleClientGuiAction::Catch));
    drain(&mut gui, go(), 20);
    assert_eq!(gui.teams[1].active[0], None);
}

#[test]
fn switch_swaps_on_the_second_page() {
    let mut gui = battle();
    gui.process(ServerMessage::Turns(vec![PendingAction { actor: player_slot(), kind: BattleClientGuiAction::Switch(1) }]));
    gui.update(&hold());
    assert_eq!(
        gui.text.pages,
        vec![
            TextPage::ComeBack(Some(MemberRef { team: LOCAL, member: 0 })),
            TextPage::Go(Some(MemberRef { team: LOCAL, member: 1 })),
        ]
    );
    assert_eq!(gui.teams[0].active[0], Some(0));
    gui.update(&go());
    assert_eq!(gui.teams[0].active[0], Some(1));
    assert_eq!(gui.teams[0].visuals[0].shown, Some(1));
}

#[test]
fn local_faint_waits_for_a_replacement() {
    let mut gui = battle();
    queue_directly(&mut gui, vec![PendingAction { actor: player_slot(), kind: BattleClientGuiAction::Faint }]);
    gui.update(&hold());
    assert_eq!(gui.teams[0].party[0].hp, 0);
    assert_eq!(gui.teams[0].visuals[0].fainting, FAINT_STEPS);
    for _ in 0..40 {
        gui.update(&go());
    }
    assert!(matches!(gui.queue.current.as_ref().unwrap().current, BattleClientGuiCurrent::Faint(true)));
    gui.update(&with_choice(Choice::Party(0)));
    assert!(gui.queue.current.is_some());
    gui.update(&with_choice(Choice::Party(1)));
    assert!(gui.queue.current.is_none());
    assert_eq!(gui.teams[0].active[0], Some(1));
    assert_eq!(gui.take_messages(), vec![ClientMessage::ReplaceFaint(0, 1)]);
}

#[test]
fn forced_replacement_mid_turn_is_queued_last() {
    let mut gui = battle();
    gui.process(ServerMessage::Turns(vec![tackle(vec![Effect::SetHp(900)])]));
    gui.process(ServerMessage::Replace(player_slot(), 1));
    assert_eq!(gui.queue.actions.len(), 2);
    assert!(matches!(gui.queue.actions[1].kind, BattleClientGuiAction::Replace(Some(1))));
}

#[test]
fn forced_replacement_between_turns_applies_at_once() {
    let mut gui = battle();
    gui.teams[0].party[0].hp = 0;
    gui.process(ServerMessage::Replace(player_slot(), 1));
    assert_eq!(gui.teams[0].active[0], Some(1));
    assert_eq!(gui.teams[0].visuals[0].shown, Some(1));
}

#[test]
fn selection_sends_one_move_per_slot() {
    let mut gui = battle();
    gui.process(ServerMessage::Selecting);
    gui.update(&hold());
    assert_eq!(gui.state, BattlePlayerState::Select(0));
    let pick = FrameInput {
        advance_text: false,
        choice: None,
        selection: Some(BattleMove::Move(0, Some(opponent_slot()))),
        transition_done: false,
        forfeit: false,
    };
    gui.update(&pick);
    assert_eq!(gui.state, BattlePlayerState::Select(1));
    assert_eq!(gui.take_messages(), vec![ClientMessage::Move(0, BattleMove::Move(0, Some(opponent_slot())))]);
}

#[test]
fn team_lookup_goes_through_the_directory() {
    let gui = battle();
    assert_eq!(gui.find_team(REMOTE), Some(1));
    assert_eq!(gui.find_team(LOCAL), Some(0));
    assert_eq!(gui.find_team(77), None);
}

#[test]
fn learnset_gives_moves_of_gained_levels() {
    let m = monster("Charmander", 4, 1000);
    assert_eq!(m.moves_learned(4, 6), vec![EMBER]);
    assert_eq!(m.moves_learned(5, 8), vec![EMBER]);
    assert_eq!(m.moves_learned(6, 9), Vec::<u32>::new());
    assert_eq!(m.moves_learned(1, 10), vec![EMBER, 99]);
}

#[test]
fn stages_stay_within_bounds() {
    let mut m = monster("Squirtle", 5, 1000);
    m.change_stage(0, 5);
    m.change_stage(0, 5);
    assert_eq!(m.stages[0], 6);
    m.change_stage(2, -9);
    assert_eq!(m.stages[2], -6);
    m.change_stage(50, 1);
    assert_eq!(m.stages.len(), 7);
}

#[test]
fn any_inactive_needs_a_standing_bench_member() {
    let mut t = team(LOCAL, vec![monster("A", 5, 1000), monster("B", 5, 1000)], vec![Some(0)]);
    assert!(t.any_inactive());
    t.party[1].hp = 0;
    assert!(!t.any_inactive());
}

#[test]
fn exp_without_new_moves_leaves_nothing_in_progress() {
    let mut gui = battle();
    queue_directly(&mut gui, vec![PendingAction {
        actor: player_slot(),
        kind: BattleClientGuiAction::SetExp {
            previous_level: 4,
            new_experience: 150,
            new_level: 4,
            learnable_moves: vec![],
        },
    }]);
    gui.update(&hold());
    assert!(matches!(&gui.queue.actions[0].kind, BattleClientGuiAction::LevelUp(m) if m.is_empty()));
    let mut n = 0;
    while gui.queue.current.is_some() {
        assert!(n < 50);
        gui.update(&go());
        n += 1;
    }
    // the queued level-up is dropped in the frame that pops it, which ends the turn
    gui.update(&go());
    assert!(gui.queue.current.is_none());
    assert_eq!(gui.state, BattlePlayerState::WaitToSelect);
    assert_eq!(gui.take_messages(), vec![ClientMessage::FinishedTurnQueue]);
}

fn gain_exp_on_self(level: u8) -> PendingAction {
    PendingAction {
        actor: player_slot(),
        kind: BattleClientGuiAction::Move {
            move_id: TACKLE,
            pp_cost: 1,
            outcomes: vec![TargetOutcome { location: player_slot(), effects: vec![Effect::GainExp(500, level)] }],
        },
    }
}

#[test]
fn new_moves_fill_free_slots_without_a_prompt() {
    let mut gui = battle();
    gui.process(ServerMessage::Turns(vec![gain_exp_on_self(6)]));
    gui.update(&hold());
    assert_eq!(gui.teams[0].party[0].moves.len(), 3);
    assert_eq!(gui.teams[0].party[0].moves[2], MoveSlot { move_id: EMBER, pp: 25 });
    match &gui.queue.actions[0].kind {
        BattleClientGuiAction::SetExp { previous_level, new_level, learnable_moves, .. } => {
            assert_eq!((*previous_level, *new_level), (4, 6));
            assert!(learnable_moves.is_empty());
        }
        _ => panic!("a SetExp should be queued"),
    }
    drain(&mut gui, go(), 100);
    assert_eq!(gui.take_messages(), vec![ClientMessage::FinishedTurnQueue]);
}

#[test]
fn full_move_set_offers_known_new_moves() {
    let mut gui = battle();
    gui.teams[0].party[0].moves = vec![
        MoveSlot { move_id: TACKLE, pp: 35 },
        MoveSlot { move_id: GROWL, pp: 40 },
        MoveSlot { move_id: 7, pp: 10 },
        MoveSlot { move_id: 8, pp: 10 },
    ];
    gui.process(ServerMessage::Turns(vec![gain_exp_on_self(10)]));
    gui.update(&hold());
    assert_eq!(gui.teams[0].party[0].moves.len(), 4);
    match &gui.queue.actions[0].kind {
        BattleClientGuiAction::SetExp { learnable_moves, .. } => assert_eq!(*learnable_moves, vec![EMBER]),
        _ => panic!("a SetExp should be queued"),
    }
    let mut n = 0;
    loop {
        assert!(n < 100);
        if let Some(c) = &gui.queue.current {
            if let BattleClientGuiCurrent::LevelUp(_, LearnStage::Choosing) = c.current {
                break;
            }
        }
        gui.update(&go());
        n += 1;
    }
    gui.update(&with_choice(Choice::Learn(1)));
    assert_eq!(gui.teams[0].party[0].moves[1], MoveSlot { move_id: EMBER, pp: 25 });
    assert_eq!(gui.teams[0].party[0].moves.len(), 4);
}

#[test]
fn item_without_a_target_is_skipped() {
    let mut gui = battle();
    gui.teams[1].active[0] = None;
    gui.process(ServerMessage::Turns(vec![PendingAction {
        actor: player_slot(),
        kind: BattleClientGuiAction::UseItem { item_id: BALL, target: opponent_slot() },
    }]));
    gui.update(&hold());
    assert!(gui.queue.current.is_none());
    assert_eq!(gui.state, BattlePlayerState::WaitToSelect);
    assert_eq!(gui.take_messages(), vec![ClientMessage::FinishedTurnQueue]);
}

#[test]
fn running_from_a_wild_battle_forfeits() {
    let mut gui = battle();
    gui.process(ServerMessage::Selecting);
    gui.update(&hold());
    let run = FrameInput { advance_text: false, choice: None, selection: None, transition_done: false, forfeit: true };
    gui.update(&run);
    assert_eq!(gui.state, BattlePlayerState::Select(0));
    assert_eq!(gui.take_messages(), vec![ClientMessage::Forfeit]);
}

#[test]
fn calm_turn_plays_out_to_one_finish() {
    let mut gui = battle();
    gui.process(ServerMessage::Turns(vec![
        tackle(vec![Effect::SetHp(600), Effect::CriticalHit]),
        PendingAction { actor: player_slot(), kind: BattleClientGuiAction::Switch(1) },
    ]));
    gui.play_out_turn();
    assert_eq!(gui.state, BattlePlayerState::WaitToSelect);
    assert!(gui.queue.actions.is_empty() && gui.queue.current.is_none());
    assert_eq!(gui.take_messages(), vec![ClientMessage::FinishedTurnQueue]);
    assert_eq!(gui.teams[0].active[0], Some(1));
}

#[test]
fn faint_trigger_goes_ahead_of_a_faint_already_waiting() {
    let mut gui = battle();
    queue_directly(&mut gui, vec![
        tackle(vec![Effect::FaintTrigger(opponent_slot())]),
        PendingAction { actor: opponent_slot(), kind: BattleClientGuiAction::Switch(0) },
        PendingAction { actor: opponent_slot(), kind: BattleClientGuiAction::Faint },
    ]);
    gui.update(&hold());
    assert_eq!(gui.queue.actions.len(), 3);
    assert!(matches!(gui.queue.actions[0].kind, BattleClientGuiAction::Faint));
    assert_eq!(gui.queue.actions[0].actor, opponent_slot());
    assert!(matches!(gui.queue.actions[1].kind, BattleClientGuiAction::Switch(0)));
}

#[test]
fn one_move_queues_one_faint_per_target() {
    let mut gui = battle();
    gui.process(ServerMessage::Turns(vec![tackle(vec![Effect::SetHp(0), Effect::FaintTrigger(opponent_slot())])]));
    gui.update(&hold());
    assert_eq!(gui.queue.actions.len(), 1);
    assert!(matches!(gui.queue.actions[0].kind, BattleClientGuiAction::Faint));
}

#[test]
fn replacement_swaps_after_the_first_page() {
    let mut gui = battle();
    queue_directly(&mut gui, vec![
        PendingAction { actor: player_slot(), kind: BattleClientGuiAction::Replace(Some(1)) },
    ]);
    gui.update(&hold());
    assert_eq!(gui.text.pages, vec![TextPage::SentOut { team: LOCAL, member: 1 }]);
    gui.update(&hold());
    assert_eq!(gui.teams[0].active[0], Some(0));
    gui.update(&go());
    assert_eq!(gui.teams[0].active[0], Some(1));
    assert_eq!(gui.teams[0].visuals[0].shown, Some(1));
    gui.update(&go());
    assert!(gui.queue.current.is_none());
}
