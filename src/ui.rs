use vstd::prelude::*;
use crate::roster::MoveSlot;

verus! {

/// Which half of the screen a battle slot is drawn in.
#[derive(Clone, Copy, Debug, PartialEq, Eq, Structural)]
pub enum BattleGuiPosition {
    Top,
    Bottom,
}

/// Where a slot is drawn: its half of the screen, its index there and how many
/// slots share that half.
#[derive(Clone, Copy, Debug, PartialEq, Eq, Structural)]
pub struct BattleGuiPositionIndex {
    pub position: BattleGuiPosition,
    pub index: u8,
    pub size: u8,
}

impl BattleGuiPositionIndex {
    pub fn new(position: BattleGuiPosition, index: u8, size: u8) -> (r: Self)
        ensures
            r == (BattleGuiPositionIndex { position, index, size }),
    {
        BattleGuiPositionIndex { position, index, size }
    }
}

/// The opening animations a battle can start with.
#[derive(Clone, Copy, Debug, PartialEq, Eq, Structural)]
pub enum Openers {
    Wild,
    Trainer,
}

impl Default for Openers {
    fn default() -> (r: Self)
        ensures
            r == Openers::Wild,
    {
        Openers::Wild
    }
}

/// The introductions that follow the opening animation.
#[derive(Clone, Copy, Debug, PartialEq, Eq, Structural)]
pub enum Introductions {
    Basic,
    Trainer,
}

impl Default for Introductions {
    fn default() -> (r: Self)
        ensures
            r == Introductions::Basic,
    {
        Introductions::Basic
    }
}

/// The stages of the animation that sends a monster out.
#[derive(Clone, Copy, Debug, PartialEq, Eq, Structural)]
pub enum SpawnerState {
    Idle,
    Start,
    Throwing,
    Spawning,
}

impl Default for SpawnerState {
    fn default() -> (r: Self)
        ensures
            r == SpawnerState::Idle,
    {
        SpawnerState::Idle
    }
}

/// A direction pressed on the controller.
#[derive(Clone, Copy, Debug, PartialEq, Eq, Structural)]
pub enum Direction {
    Up,
    Down,
    Left,
    Right,
}

/// The cursor of the two-by-two action menu, after a press.
pub open spec fn options_cursor(cursor: usize, d: Direction) -> usize {
    match d {
        Direction::Up => if cursor >= 2 {
            (cursor - 2) as usize
        } else {
            cursor
        },
        Direction::Down => if cursor <= 2 {
            (cursor + 2) as usize
        } else {
            cursor
        },
        Direction::Left => if cursor > 0 {
            (cursor - 1) as usize
        } else {
            cursor
        },
        Direction::Right => if cursor < 3 {
            (cursor + 1) as usize
        } else {
            cursor
        },
    }
}

/// The cursor of the two-by-two action menu after a press: it moves within
/// the menu and stays put at its edges.
pub open spec fn menu_cursor(cursor: usize, d: Direction) -> usize {
    match d {
        Direction::Down => if cursor < 2 {
            (cursor + 2) as usize
        } else {
            cursor
        },
        _ => options_cursor(cursor, d),
    }
}

/// The action menu: fight, bag, party or run, laid out two by two.
pub struct BattleOptions {
    pub buttons: [&'static str; 4],
    pub pokemon_do: String,
    pub cursor: usize,
}

impl BattleOptions {
    pub fn new() -> (r: Self)
        ensures
            r.cursor == 0,
            r.pokemon_do@.len() == 0,
            r.buttons@ == seq!["FIGHT", "BAG", "POKEMON", "RUN"],
    {
        BattleOptions { buttons: ["FIGHT", "BAG", "POKEMON", "RUN"], pokemon_do: String::new(), cursor: 0 }
    }

    /// Moves the cursor by one press; it stays inside the menu.
    pub fn input(&mut self, d: Direction)
        ensures
            final(self).cursor == menu_cursor(old(self).cursor, d),
            old(self).cursor < 4 ==> final(self).cursor < 4,
            final(self).pokemon_do == old(self).pokemon_do,
            final(self).buttons == old(self).buttons,
    {
        match d {
            Direction::Up => if self.cursor >= 2 {
                self.cursor = self.cursor - 2;
            },
            Direction::Down => if self.cursor < 2 {
                self.cursor = self.cursor + 2;
            },
            Direction::Left => if self.cursor > 0 {
                self.cursor = self.cursor - 1;
            },
            Direction::Right => if self.cursor < 3 {
                self.cursor = self.cursor + 1;
            },
        }
    }
}

/// The panel beside the move list: the power points and the type of the
/// selected move.
pub struct MoveInfoPanel {
    pub pp: String,
    pub move_type: String,
}

impl MoveInfoPanel {
    pub fn new() -> (r: Self)
        ensures
            r.pp@ == "x/y"@,
            r.move_type@ == "TYPE/"@,
    {
        MoveInfoPanel { pp: "x/y".to_owned(), move_type: "TYPE/".to_owned() }
    }
}

/// Whether a press moves the cursor of a two-by-two grid.
pub open spec fn grid_moves(cursor: usize, d: Direction) -> bool {
    match d {
        Direction::Up => cursor >= 2,
        Direction::Down => cursor <= 2,
        Direction::Left => cursor > 0,
        Direction::Right => cursor < 3,
    }
}

/// The moves of the active monster, laid out two by two.
pub struct MovePanel {
    pub cursor: usize,
    pub names: [Option<MoveSlot>; 4],
}

impl MovePanel {
    pub fn new() -> (r: Self)
        ensures
            r.cursor == 0,
            forall|i: int| 0 <= i < 4 ==> r.names@[i] is None,
    {
        MovePanel { cursor: 0, names: [None, None, None, None] }
    }

    /// Shows the moves of a monster, in order, as far as four go.
    pub fn update_names(&mut self, moves: &Vec<MoveSlot>)
        ensures
            final(self).cursor == old(self).cursor,
            forall|i: int|
                0 <= i < 4 ==> final(self).names@[i] == (if i < moves@.len() {
                    Some(moves@[i])
                } else {
                    old(self).names@[i]
                }),
    {
        let mut i: usize = 0;
        while i < 4 && i < moves.len()
            invariant
                i <= 4,
                i <= moves@.len(),
                self.cursor == old(self).cursor,
                forall|k: int|
                    0 <= k < 4 ==> self.names@[k] == (if k < i {
                        Some(moves@[k])
                    } else {
                        old(self).names@[k]
                    }),
            decreases 4 - i,
        {
            self.names.set(i, Some(moves[i]));
            i += 1;
        }
    }

    /// Moves the cursor by one press and keeps it on the four moves; tells
    /// whether the press moved it.
    pub fn input(&mut self, d: Direction) -> (moved: bool)
        ensures
            moved == grid_moves(old(self).cursor, d),
            final(self).cursor == (if moved {
                if options_cursor(old(self).cursor, d) >= 4 {
                    3
                } else {
                    options_cursor(old(self).cursor, d)
                }
            } else {
                old(self).cursor
            }),
            final(self).names == old(self).names,
    {
        let moved = match d {
            Direction::Up => if self.cursor >= 2 {
                self.cursor = self.cursor - 2;
                true
            } else {
                false
            },
            Direction::Down => if self.cursor <= 2 {
                self.cursor = self.cursor + 2;
                true
            } else {
                false
            },
            Direction::Left => if self.cursor > 0 {
                self.cursor = self.cursor - 1;
                true
            } else {
                false
            },
            Direction::Right => if self.cursor < 3 {
                self.cursor = self.cursor + 1;
                true
            } else {
                false
            },
        };
        if moved && self.cursor >= 4 {
            self.cursor = 3;
        }
        moved
    }
}

/// The slots that a move or an item can be aimed at, laid out two by two.
pub struct TargetPanel {
    pub names: Vec<Option<String>>,
    pub cursor: usize,
}

impl TargetPanel {
    pub fn new() -> (r: Self)
        ensures
            r.cursor == 0,
            r.names@.len() == 0,
    {
        TargetPanel { names: Vec::new(), cursor: 0 }
    }

    /// Moves the cursor by one press and keeps it on a listed slot.
    pub fn input(&mut self, d: Direction)
        requires
            old(self).names@.len() > 0,
        ensures
            final(self).cursor == (if options_cursor(old(self).cursor, d) >= old(self).names@.len() {
                (old(self).names@.len() - 1) as usize
            } else {
                options_cursor(old(self).cursor, d)
            }),
            final(self).names == old(self).names,
    {
        match d {
            Direction::Up => if self.cursor >= 2 {
                self.cursor = self.cursor - 2;
            },
            Direction::Down => if self.cursor <= 2 {
                self.cursor = self.cursor + 2;
            },
            Direction::Left => if self.cursor > 0 {
                self.cursor = self.cursor - 1;
            },
            Direction::Right => if self.cursor < 3 {
                self.cursor = self.cursor + 1;
            },
        }
        if self.cursor >= self.names.len() {
            self.cursor = self.names.len() - 1;
        }
    }

    /// A cursor past the listed slots goes back to the first.
    pub fn reset(&mut self)
        ensures
            final(self).cursor == (if old(self).cursor >= old(self).names@.len() {
                0
            } else {
                old(self).cursor
            }),
            final(self).names == old(self).names,
    {
        if self.cursor >= self.names.len() {
            self.cursor = 0;
        }
    }
}

} // verus!
