//! The row bookkeeping of the card panel: which cards share a row, where a
//! card goes in its row, and when a row closes.
use vstd::prelude::*;

verus! {

/// Width a card occupies within a row of the card panel.
#[derive(Clone, Copy, Debug, PartialEq, Eq, Structural)]
pub enum CardWidth {
    /// Takes the full row width.
    Full,
    /// Takes half the row, leaving room for another half-width card.
    Half,
}

/// Where a card goes in its row.
#[derive(Clone, Copy, Debug, PartialEq, Eq, Structural)]
pub enum CardSlot {
    /// Across the whole row.
    Full,
    /// The first half-width card of the row.
    LeftHalf,
    /// The second half-width card of the row.
    RightHalf,
}

/// What follows a placed card.
#[derive(Clone, Copy, Debug, PartialEq, Eq, Structural)]
pub enum RowEnd {
    /// A full-width card was placed: the row closes.
    Close,
    /// The first half-width card was placed: its right edge is remembered
    /// and the row stays open for a second one.
    KeepOpen,
    /// The second half-width card was placed: the divider between the two
    /// is drawn, then the row closes.
    DividerThenClose,
    /// A half-width card beyond the second of its row was placed (a row
    /// that `needs_new_row` would have closed first): nothing follows.
    Nothing,
}

/// How one card was placed by `CardRows::place`.
#[derive(Clone, Copy, Debug, PartialEq, Eq, Structural)]
pub struct Placement {
    /// Whether a new row was started before the card.
    pub new_row: bool,
    /// Where the card goes in its row.
    pub slot: CardSlot,
    /// What follows the card.
    pub end: RowEnd,
    /// The row the card was placed in (the row that the divider, if any,
    /// belongs to).
    pub row: usize,
}

/// The rows of a card panel: the index of the current row and how many
/// half-width cards it holds so far.
#[derive(Clone, Copy, Debug)]
pub struct CardRows {
    pub row_index: usize,
    pub row_half_count: usize,
}

/// Whether a card of `width` must start a new row when the current row
/// holds `half_count` half-width cards: a full-width card never shares a
/// row, and a row holds at most two half-width cards.
pub open spec fn breaks_before(half_count: nat, width: CardWidth) -> bool {
    match width {
        CardWidth::Full => half_count > 0,
        CardWidth::Half => half_count >= 2,
    }
}

/// Where a card of `width` goes once the row is chosen.
pub open spec fn slot_for(half_count: nat, width: CardWidth) -> CardSlot {
    match width {
        CardWidth::Full => CardSlot::Full,
        CardWidth::Half => if half_count == 0 {
            CardSlot::LeftHalf
        } else {
            CardSlot::RightHalf
        },
    }
}

/// What follows a card of `width` placed in a row with `half_count`
/// half-width cards before it.
pub open spec fn end_for(half_count: nat, width: CardWidth) -> RowEnd {
    match width {
        CardWidth::Full => RowEnd::Close,
        CardWidth::Half => if half_count == 0 {
            RowEnd::KeepOpen
        } else if half_count == 1 {
            RowEnd::DividerThenClose
        } else {
            RowEnd::Nothing
        },
    }
}

/// The rows after one card of `width` is placed with all its steps: a new
/// row first when needed, the card, and the closing of the row when the
/// card closes it. The result is (row index, half-width cards in the row).
pub open spec fn after_card(row: nat, half_count: nat, width: CardWidth) -> (nat, nat) {
    let (row1, count1) = if breaks_before(half_count, width) {
        (row + 1, 0nat)
    } else {
        (row, half_count)
    };
    let count2 = match width {
        CardWidth::Full => count1,
        CardWidth::Half => count1 + 1,
    };
    match end_for(count1, width) {
        RowEnd::Close | RowEnd::DividerThenClose => (row1 + 1, 0nat),
        _ => (row1, count2),
    }
}

impl CardRows {
    /// The first row, empty.
    pub fn begin() -> (r: CardRows)
        ensures
            r.row_index == 0,
            r.row_half_count == 0,
    {
        CardRows { row_index: 0, row_half_count: 0 }
    }

    /// Moves to the start of a new row.
    pub fn advance_row(&mut self)
        requires
            old(self).row_index < usize::MAX,
        ensures
            final(self).row_index == old(self).row_index + 1,
            final(self).row_half_count == 0,
    {
        self.row_index = self.row_index + 1;
        self.row_half_count = 0;
    }

    /// Whether a card of `width` must start a new row.
    pub fn needs_new_row(&self, width: CardWidth) -> (r: bool)
        ensures
            r == breaks_before(self.row_half_count as nat, width),
    {
        match width {
            CardWidth::Full => self.row_half_count > 0,
            CardWidth::Half => self.row_half_count >= 2,
        }
    }

    /// Where a card of `width` goes in the current row.
    pub fn slot(&self, width: CardWidth) -> (r: CardSlot)
        ensures
            r == slot_for(self.row_half_count as nat, width),
    {
        match width {
            CardWidth::Full => CardSlot::Full,
            CardWidth::Half => if self.row_half_count == 0 {
                CardSlot::LeftHalf
            } else {
                CardSlot::RightHalf
            },
        }
    }

    /// Places one card of `width` with all its row steps: starts a new row
    /// when needed, chooses the card's slot, counts the card, and closes
    /// the row when the card closes it.
    pub fn place(&mut self, width: CardWidth) -> (r: Placement)
        requires
            old(self).row_index + 2 <= usize::MAX,
            old(self).row_half_count < usize::MAX,
        ensures
            r.new_row == breaks_before(old(self).row_half_count as nat, width),
            r.row == (if r.new_row {
                old(self).row_index + 1
            } else {
                old(self).row_index as int
            }),
            r.slot == slot_for(
                (if r.new_row {
                    0
                } else {
                    old(self).row_half_count
                }) as nat,
                width,
            ),
            r.end == end_for(
                (if r.new_row {
                    0
                } else {
                    old(self).row_half_count
                }) as nat,
                width,
            ),
            (final(self).row_index as nat, final(self).row_half_count as nat) == after_card(
                old(self).row_index as nat,
                old(self).row_half_count as nat,
                width,
            ),
    {
        let new_row = self.needs_new_row(width);
        if new_row {
            self.advance_row();
        }
        let slot = self.slot(width);
        let row = self.row_index;
        let end = self.finish_card(width);
        match end {
            RowEnd::Close | RowEnd::DividerThenClose => self.advance_row(),
            _ => {},
        }
        Placement { new_row, slot, end, row }
    }

    /// Counts a placed card of `width` and tells what follows it; closing
    /// the row is left to `advance_row`.
    pub fn finish_card(&mut self, width: CardWidth) -> (r: RowEnd)
        requires
            old(self).row_half_count < usize::MAX,
        ensures
            r == end_for(old(self).row_half_count as nat, width),
            final(self).row_index == old(self).row_index,
            final(self).row_half_count == (match width {
                CardWidth::Full => old(self).row_half_count as int,
                CardWidth::Half => old(self).row_half_count + 1,
            }),
    {
        match width {
            CardWidth::Full => RowEnd::Close,
            CardWidth::Half => {
                self.row_half_count = self.row_half_count + 1;
                if self.row_half_count == 1 {
                    RowEnd::KeepOpen
                } else if self.row_half_count == 2 {
                    RowEnd::DividerThenClose
                } else {
                    RowEnd::Nothing
                }
            },
        }
    }
}

/// Each card's effect on the rows, from a row with no card or with one
/// half-width card: a half-width card on an empty row leaves the row open
/// with one half; a second half closes the row; a full-width card closes
/// its row, after closing an open half row first.
pub proof fn lemma_card_steps(row: nat)
    ensures
        after_card(row, 0, CardWidth::Half) == (row, 1nat),
        after_card(row, 1, CardWidth::Half) == (row + 1, 0nat),
        after_card(row, 0, CardWidth::Full) == (row + 1, 0nat),
        after_card(row, 1, CardWidth::Full) == (row + 2, 0nat),
        slot_for(0, CardWidth::Half) == CardSlot::LeftHalf,
        end_for(0, CardWidth::Half) == RowEnd::KeepOpen,
{
}

/// Between cards a row holds at most one half-width card, so a row never
/// has to be closed for a third half.
pub proof fn lemma_at_most_one_open_half(row: nat, half_count: nat, width: CardWidth)
    requires
        half_count <= 1,
    ensures
        after_card(row, half_count, width).1 <= 1,
        !breaks_before(half_count, CardWidth::Half),
{
}

/// A half-width card that follows a lone half-width card shares its row, on
/// the right, and closes the row with the divider.
pub proof fn lemma_second_half_shares_row(row: nat)
    ensures
        !breaks_before(1, CardWidth::Half),
        slot_for(1, CardWidth::Half) == CardSlot::RightHalf,
        end_for(1, CardWidth::Half) == RowEnd::DividerThenClose,
        after_card(row, 1, CardWidth::Half) == (row + 1, 0nat),
{
}

/// A full-width card has its row to itself: it starts on an empty row and
/// the next card starts a new one.
pub proof fn lemma_full_card_stands_alone(row: nat, half_count: nat)
    ensures
        ({
            let start_row = if breaks_before(half_count, CardWidth::Full) {
                row + 1
            } else {
                row
            };
            let start_count = if breaks_before(half_count, CardWidth::Full) {
                0nat
            } else {
                half_count
            };
            &&& start_count == 0
            &&& after_card(row, half_count, CardWidth::Full) == (start_row + 1, 0nat)
        }),
{
}

} // verus!
