use vstd::prelude::*;

verus! {

/// How an item is used, which decides whom it targets.
#[derive(Clone, Copy, Debug, PartialEq, Eq, Structural)]
pub enum ItemUsage {
    /// Runs a script on a member of the user's own team.
    Script,
    /// Applies actions to a member of the user's own team.
    Actions,
    /// Thrown at an opposing monster to catch it.
    Pokeball,
    /// Cannot be used in battle.
    Unusable,
}

#[derive(Clone, Copy, Debug, PartialEq, Eq, Structural)]
pub struct MoveEntry {
    pub id: u32,
    pub pp: u8,
}

#[derive(Clone, Copy, Debug, PartialEq, Eq, Structural)]
pub struct ItemEntry {
    pub id: u32,
    pub usage: ItemUsage,
}

/// The moves and items that the viewer knows, as looked up during a turn.
#[derive(Clone, Debug)]
pub struct Catalog {
    pub moves: Vec<MoveEntry>,
    pub items: Vec<ItemEntry>,
}

/// The first entry of the move list with the given id.
pub open spec fn first_move(s: Seq<MoveEntry>, id: u32) -> Option<MoveEntry>
    decreases s.len(),
{
    if s.len() == 0 {
        None
    } else if s[0].id == id {
        Some(s[0])
    } else {
        first_move(s.drop_first(), id)
    }
}

/// The first entry of the item list with the given id.
pub open spec fn first_item(s: Seq<ItemEntry>, id: u32) -> Option<ItemEntry>
    decreases s.len(),
{
    if s.len() == 0 {
        None
    } else if s[0].id == id {
        Some(s[0])
    } else {
        first_item(s.drop_first(), id)
    }
}

impl Catalog {
    pub open spec fn move_spec(&self, id: u32) -> Option<MoveEntry> {
        first_move(self.moves@, id)
    }

    pub open spec fn item_spec(&self, id: u32) -> Option<ItemEntry> {
        first_item(self.items@, id)
    }

    pub fn find_move(&self, id: u32) -> (r: Option<MoveEntry>)
        ensures
            r == self.move_spec(id),
    {
        let mut i: usize = 0;
        assert(self.moves@.subrange(0, self.moves@.len() as int) =~= self.moves@);
        while i < self.moves.len()
            invariant
                i <= self.moves@.len(),
                first_move(self.moves@, id) == first_move(
                    self.moves@.subrange(i as int, self.moves@.len() as int),
                    id,
                ),
            decreases self.moves@.len() - i,
        {
            let ghost rest = self.moves@.subrange(i as int, self.moves@.len() as int);
            assert(rest.drop_first() =~= self.moves@.subrange(
                i as int + 1,
                self.moves@.len() as int,
            ));
            if self.moves[i].id == id {
                return Some(self.moves[i]);
            }
            i += 1;
        }
        None
    }

    pub fn find_item(&self, id: u32) -> (r: Option<ItemEntry>)
        ensures
            r == self.item_spec(id),
    {
        let mut i: usize = 0;
        assert(self.items@.subrange(0, self.items@.len() as int) =~= self.items@);
        while i < self.items.len()
            invariant
                i <= self.items@.len(),
                first_item(self.items@, id) == first_item(
                    self.items@.subrange(i as int, self.items@.len() as int),
                    id,
                ),
            decreases self.items@.len() - i,
        {
            let ghost rest = self.items@.subrange(i as int, self.items@.len() as int);
            assert(rest.drop_first() =~= self.items@.subrange(
                i as int + 1,
                self.items@.len() as int,
            ));
            if self.items[i].id == id {
                return Some(self.items[i]);
            }
            i += 1;
        }
        None
    }
}

} // verus!
