use battle_gui::roster::MoveSlot;
use battle_gui::ui::{
    BattleGuiPosition, BattleGuiPositionIndex, BattleOptions, Direction, Introductions,
    MoveInfoPanel, MovePanel, Openers, SpawnerState, TargetPanel,
};

#[test]
fn options_cursor_moves_in_a_grid() {
    let mut o = BattleOptions::new();
    assert_eq!(o.cursor, 0);
    o.input(Direction::Up);
    assert_eq!(o.cursor, 0);
    o.input(Direction::Down);
    assert_eq!(o.cursor, 2);
    o.input(Direction::Down);
    assert_eq!(o.cursor, 2);
    o.input(Direction::Right);
    assert_eq!(o.cursor, 3);
    o.input(Direction::Right);
    assert_eq!(o.cursor, 3);
    o.input(Direction::Down);
    assert_eq!(o.cursor, 3);
    o.input(Direction::Up);
    assert_eq!(o.cursor, 1);
    o.input(Direction::Left);
    assert_eq!(o.cursor, 0);
    assert_eq!(o.buttons, ["FIGHT", "BAG", "POKEMON", "RUN"]);
}

#[test]
fn move_info_starts_with_placeholders() {
    let p = MoveInfoPanel::new();
    assert_eq!(p.pp, "x/y");
    assert_eq!(p.move_type, "TYPE/");
}

#[test]
fn defaults_of_the_transitions() {
    assert_eq!(Openers::default(), Openers::Wild);
    assert_eq!(Introductions::default(), Introductions::Basic);
    assert_eq!(SpawnerState::default(), SpawnerState::Idle);
}

#[test]
fn position_index_keeps_its_fields() {
    let p = BattleGuiPositionIndex::new(BattleGuiPosition::Top, 1, 2);
    assert_eq!(p.position, BattleGuiPosition::Top);
    assert_eq!((p.index, p.size), (1, 2));
}

#[test]
fn move_panel_cursor_stays_on_four_moves() {
    let mut p = MovePanel::new();
    assert!(!p.input(Direction::Left));
    assert!(p.input(Direction::Right));
    assert_eq!(p.cursor, 1);
    assert!(p.input(Direction::Down));
    assert_eq!(p.cursor, 3);
    assert!(!p.input(Direction::Down));
    assert!(p.input(Direction::Left));
    assert_eq!(p.cursor, 2);
    assert!(p.input(Direction::Down));
    assert_eq!(p.cursor, 3);
}

#[test]
fn target_panel_cursor_stays_on_listed_slots() {
    let mut p = TargetPanel::new();
    p.names = vec![Some("Rattata".to_string()), None];
    p.input(Direction::Down);
    assert_eq!(p.cursor, 1);
    p.input(Direction::Left);
    assert_eq!(p.cursor, 0);
    p.input(Direction::Right);
    assert_eq!(p.cursor, 1);
    p.names.truncate(1);
    p.reset();
    assert_eq!(p.cursor, 0);
}

#[test]
fn move_panel_lists_the_first_four_moves() {
    let mut p = MovePanel::new();
    let moves = vec![MoveSlot { move_id: 1, pp: 5 }, MoveSlot { move_id: 2, pp: 0 }];
    p.update_names(&moves);
    assert_eq!(p.names, [Some(moves[0]), Some(moves[1]), None, None]);
}
