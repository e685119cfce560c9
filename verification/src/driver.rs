//! The primitives of the terminal driver, as data.
//!
//! The library never touches the terminal. It says which primitive is due by
//! handing out a [`DriverOp`]; the embedding program performs it and reports
//! back whether the driver accepted it.

use vstd::prelude::*;

verus! {

/// One primitive operation of the terminal driver.
#[derive(Clone, Copy, Debug, PartialEq, Eq, Structural)]
pub enum DriverOp {
    /// Move the cursor to column `x`, row `y`, both counted from zero.
    MoveTo(u16, u16),
    /// Move the cursor left by the given number of cells.
    MoveLeft(u16),
    /// Move the cursor right by the given number of cells.
    MoveRight(u16),
    /// Move the cursor up by the given number of cells.
    MoveUp(u16),
    /// Move the cursor down by the given number of cells.
    MoveDown(u16),
    /// Move the cursor to the start of the line the given number of lines below.
    MoveToNextLine(u16),
    /// Make the cursor visible.
    ShowCursor,
    /// Make the cursor invisible.
    HideCursor,
    /// Switch to the alternate screen buffer.
    EnterAlternateScreen,
    /// Switch back to the main screen buffer.
    LeaveAlternateScreen,
    /// Deliver keystrokes unbuffered and unechoed.
    EnableRawMode,
    /// Restore line-buffered, echoed input.
    DisableRawMode,
    /// Clear the whole screen.
    ClearScreen,
}

/// How often `op` occurs in `ops`.
pub open spec fn occurrences(ops: Seq<DriverOp>, op: DriverOp) -> nat
    decreases ops.len(),
{
    if ops.len() == 0 {
        0
    } else {
        occurrences(ops.drop_last(), op) + if ops.last() == op {
            1nat
        } else {
            0nat
        }
    }
}

/// A sequence of one primitive holds that primitive once and no other.
pub proof fn lemma_occurrences_one(x: DriverOp, op: DriverOp)
    ensures
        occurrences(seq![x], op) == if x == op {
            1nat
        } else {
            0nat
        },
{
    assert(seq![x].drop_last() =~= Seq::<DriverOp>::empty());
    assert(occurrences(seq![x].drop_last(), op) == 0);
}

/// The occurrences in a concatenation are those of its two parts together.
pub proof fn lemma_occurrences_concat(a: Seq<DriverOp>, b: Seq<DriverOp>, op: DriverOp)
    ensures
        occurrences(a + b, op) == occurrences(a, op) + occurrences(b, op),
    decreases b.len(),
{
    if b.len() == 0 {
        assert(a + b =~= a);
    } else {
        assert((a + b).drop_last() =~= a + b.drop_last());
        assert((a + b).last() == b.last());
        lemma_occurrences_concat(a, b.drop_last(), op);
    }
}

} // verus!
