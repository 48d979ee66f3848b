//! Laws of the transition function: the invariant is preserved by every
//! action, and the boundary actions behave as stated.

use vstd::prelude::*;
use crate::backend::{apply_action, buffer_wf, Action, BufferModel};

verus! {

/// Law: every action preserves the buffer invariant. In particular a buffer
/// never loses its last row: after any action there is still at least one
/// row, the cursor row points at a row, and the cursor column lies within it.
pub proof fn lemma_action_preserves_wf(m: BufferModel, a: Action)
    requires
        buffer_wf(m),
    ensures
        buffer_wf(apply_action(m, a)),
        apply_action(m, a).lines.len() >= 1,
{
}

/// The state reached from `m` by a whole sequence of actions, applied in
/// order.
pub open spec fn apply_all(m: BufferModel, actions: Seq<Action>) -> BufferModel
    decreases actions.len(),
{
    if actions.len() == 0 {
        m
    } else {
        apply_all(apply_action(m, actions[0]), actions.drop_first())
    }
}

/// Law: after any sequence of actions, starting from any well-formed state,
/// the buffer invariant still holds: the cursor row and column are in bounds
/// and at least one row remains.
pub proof fn lemma_apply_all_preserves_wf(m: BufferModel, actions: Seq<Action>)
    requires
        buffer_wf(m),
    ensures
        buffer_wf(apply_all(m, actions)),
    decreases actions.len(),
{
    if actions.len() > 0 {
        lemma_action_preserves_wf(m, actions[0]);
        lemma_apply_all_preserves_wf(apply_action(m, actions[0]), actions.drop_first());
    }
}

/// Law: `Enter` then `Backspace`, from any well-formed state, restores the
/// original rows and cursor position exactly.
pub proof fn lemma_enter_backspace_round_trip(m: BufferModel)
    requires
        buffer_wf(m),
    ensures
        apply_action(apply_action(m, Action::Enter), Action::Backspace) == m,
{
    let s = apply_action(m, Action::Enter);
    let line = m.lines[m.row as int];
    assert(s.lines[m.row as int] + s.lines[m.row as int + 1] =~= line);
    let t = apply_action(s, Action::Backspace);
    assert(t.lines =~= m.lines);
    assert(t =~= m);
}

/// Law: `Left` at the start of a line leaves the state unchanged.
pub proof fn lemma_left_at_line_start_noop(m: BufferModel)
    requires
        buffer_wf(m),
        m.col == 0,
    ensures
        apply_action(m, Action::Left) == m,
{
    assert(apply_action(m, Action::Left) =~= m);
}

/// Law: `Right` at the end of the last line leaves the state unchanged.
pub proof fn lemma_right_at_document_end_noop(m: BufferModel)
    requires
        buffer_wf(m),
        m.row + 1 == m.lines.len(),
        m.col == m.lines[m.row as int].len(),
    ensures
        apply_action(m, Action::Right) == m,
{
}

/// Law: `Up` on the first row leaves the state unchanged: the row stays, and
/// the column clamp is the identity on a well-formed state.
pub proof fn lemma_up_at_first_row_noop(m: BufferModel)
    requires
        buffer_wf(m),
        m.row == 0,
    ensures
        apply_action(m, Action::Up) == m,
{
    assert(apply_action(m, Action::Up) =~= m);
}

/// Law: `Down` on the last row leaves the state unchanged: the row stays, and
/// the column clamp is the identity on a well-formed state.
pub proof fn lemma_down_at_last_row_noop(m: BufferModel)
    requires
        buffer_wf(m),
        m.row + 1 == m.lines.len(),
    ensures
        apply_action(m, Action::Down) == m,
{
    assert(apply_action(m, Action::Down) =~= m);
}

} // verus!
