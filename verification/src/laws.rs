//! What holds of the registry across several operations, proved over the
//! list model of [`crate::goal`].

use vstd::prelude::*;
use crate::goal::{
    appended, blank, has_goal, ids_increasing, is_position, lemma_has_goal_position,
    lemma_position_is_first, position, removed, toggled, updated, GoalView,
};

verus! {

/// The list after `count` goals were added to it, one at a time.
pub open spec fn after_adds(goals: Seq<GoalView>, count: nat) -> Seq<GoalView>
    decreases count,
{
    if count == 0 {
        goals
    } else {
        appended(after_adds(goals, (count - 1) as nat))
    }
}

/// Goals added to an empty registry are numbered 0, 1, 2 and so on in the
/// order of their addition: after `count` additions the registry holds
/// `count` blank goals, and the goal at place `i` has identifier `i`.
pub proof fn law_added_ids_count_from_zero(count: nat)
    ensures
        after_adds(Seq::empty(), count) == Seq::new(count, |i: int| blank(i as nat)),
    decreases count,
{
    if count > 0 {
        law_added_ids_count_from_zero((count - 1) as nat);
        assert(after_adds(Seq::empty(), count) =~= Seq::new(count, |i: int| blank(i as nat)));
    } else {
        assert(after_adds(Seq::empty(), count) =~= Seq::new(count, |i: int| blank(i as nat)));
    }
}

/// Adding a goal keeps the identifiers growing along the list, and the new
/// goal's identifier is none of the old ones.
pub proof fn law_added_id_is_fresh(goals: Seq<GoalView>)
    requires
        ids_increasing(goals),
    ensures
        ids_increasing(appended(goals)),
        !has_goal(goals, appended(goals).last().id),
{
}

/// In a registry no two goals have the same identifier.
pub proof fn law_ids_unique(goals: Seq<GoalView>, i: int, j: int)
    requires
        ids_increasing(goals),
        0 <= i < goals.len(),
        0 <= j < goals.len(),
        i != j,
    ensures
        goals[i].id != goals[j].id,
{
    if i < j {
        assert(goals[i].id < goals[j].id);
    } else {
        assert(goals[j].id < goals[i].id);
    }
}

/// Toggling a goal twice gives back the registry as it was: the goal is
/// still there after the first toggle, and the second undoes the first.
pub proof fn law_toggle_twice(goals: Seq<GoalView>, id: nat)
    requires
        has_goal(goals, id),
    ensures
        has_goal(toggled(goals, id), id),
        toggled(toggled(goals, id), id) == goals,
{
    lemma_has_goal_position(goals, id);
    let at = position(goals, id);
    let once = toggled(goals, id);
    assert(is_position(once, id, at));
    lemma_position_is_first(once, id, at);
    assert(toggled(once, id) =~= goals);
}

/// A goal that was removed is not found again: no goal of the registry has
/// its identifier any more, so every later operation on that identifier
/// reports that there is no such goal.
pub proof fn law_removed_is_gone(goals: Seq<GoalView>, id: nat)
    requires
        ids_increasing(goals),
        has_goal(goals, id),
    ensures
        !has_goal(removed(goals, id), id),
        ids_increasing(removed(goals, id)),
        removed(goals, id).len() == goals.len() - 1,
{
    lemma_has_goal_position(goals, id);
    let at = position(goals, id);
    let rest = removed(goals, id);
    assert forall|i: int| 0 <= i < rest.len() implies rest[i].id != id by {
        if i < at {
            assert(rest[i] == goals[i]);
            assert(goals[i].id < goals[at].id);
        } else {
            assert(rest[i] == goals[i + 1]);
            assert(goals[at].id < goals[i + 1].id);
        }
    }
    assert forall|i: int, j: int| 0 <= i < j < rest.len() implies rest[i].id < rest[j].id by {
        let from_i = if i < at { i } else { i + 1 };
        let from_j = if j < at { j } else { j + 1 };
        assert(rest[i] == goals[from_i]);
        assert(rest[j] == goals[from_j]);
    }
}

/// Toggling and updating a goal leave every identifier where it was, so the
/// registry stays well formed and holds the same goals as before.
pub proof fn law_edits_keep_ids(goals: Seq<GoalView>, id: nat, title: Seq<char>, date: crate::date::Date)
    requires
        has_goal(goals, id),
    ensures
        toggled(goals, id).len() == goals.len(),
        updated(goals, id, title, date).len() == goals.len(),
        forall|i: int| 0 <= i < goals.len() ==> #[trigger] toggled(goals, id)[i].id == goals[i].id,
        forall|i: int|
            0 <= i < goals.len() ==> #[trigger] updated(goals, id, title, date)[i].id == goals[i].id,
{
    lemma_has_goal_position(goals, id);
}

} // verus!
