use vstd::prelude::*;
use crate::action::Effectiveness;

verus! {

/// A party member of a team, as named on a page of text.
#[derive(Clone, Copy, Debug, PartialEq, Eq, Structural)]
pub struct MemberRef {
    pub team: u64,
    pub member: usize,
}

/// One page of the battle text box. Pages name monsters, moves and items by
/// reference; the viewer renders the words.
#[derive(Clone, Copy, Debug, PartialEq, Eq, Structural)]
pub enum TextPage {
    /// "X used M!"
    Used { user: MemberRef, move_id: u32 },
    /// "X cannot use M": the move is not in the catalog.
    CannotUse { user: MemberRef, move_id: u32 },
    Effective(Effectiveness),
    Critical,
    StatStage { target: MemberRef, stat: u8, delta: i8 },
    Afflicted { target: MemberRef, ailment: u8 },
    Missed { target: MemberRef },
    Failed { target: MemberRef },
    ItemUsed { item_id: u32, target: MemberRef },
    /// The item is not in the catalog.
    ItemFailed { item_id: u32 },
    /// "Come back, X!"; `None` when the slot was empty.
    ComeBack(Option<MemberRef>),
    /// "Go, X!"; `None` when the party has no such member.
    Go(Option<MemberRef>),
    SentOut { team: u64, member: usize },
    Fainted { who: MemberRef, is_player: bool, is_wild: bool },
    Caught { who: MemberRef },
    GainedExp { who: MemberRef, experience: u32, level: u8 },
    TryingToLearn { who: MemberRef, move_id: u32 },
}

/// The text box: its pages and the index of the page on screen.
/// It is finished once the index has moved past the last page.
#[derive(Clone, Debug)]
pub struct TextBox {
    pub pages: Vec<TextPage>,
    pub page: usize,
}

impl TextBox {
    pub fn new() -> (r: TextBox)
        ensures
            r.pages@ == Seq::<TextPage>::empty(),
            r.page == 0,
    {
        TextBox { pages: Vec::new(), page: 0 }
    }

    pub open spec fn is_finished(&self) -> bool {
        self.page >= self.pages@.len()
    }

    pub fn finished(&self) -> (r: bool)
        ensures
            r == self.is_finished(),
    {
        self.page >= self.pages.len()
    }

    pub fn clear(&mut self)
        ensures
            final(self).pages@ == Seq::<TextPage>::empty(),
            final(self).page == 0,
    {
        self.pages.clear();
        self.page = 0;
    }

    pub fn push(&mut self, p: TextPage)
        ensures
            final(self).pages@ == old(self).pages@.push(p),
            final(self).page == old(self).page,
    {
        self.pages.push(p);
    }

    /// Moves to the next page, unless the box is finished.
    pub fn advance(&mut self)
        ensures
            final(self).pages@ == old(self).pages@,
            final(self).page == (if old(self).is_finished() {
                old(self).page as int
            } else {
                old(self).page + 1
            }),
    {
        if self.page < self.pages.len() {
            self.page = self.page + 1;
        }
    }
}

} // verus!
