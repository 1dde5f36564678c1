//! Goals and the mathematics of an ordered list of them. The registry of a
//! profile is specified by the functions of this file.

use vstd::prelude::*;
use crate::date::Date;

verus! {

/// One goal of the user.
#[derive(Clone, PartialEq, Eq, Debug)]
pub struct Goal {
    /// The key by which the registry finds the goal. It never changes.
    pub id: usize,
    pub completed: bool,
    pub title: String,
    pub date: Date,
}

/// A goal as contracts see it.
pub struct GoalView {
    pub id: nat,
    pub completed: bool,
    pub title: Seq<char>,
    pub date: Date,
}

impl View for Goal {
    type V = GoalView;

    open spec fn view(&self) -> GoalView {
        GoalView {
            id: self.id as nat,
            completed: self.completed,
            title: self.title@,
            date: self.date,
        }
    }
}

impl DeepView for Goal {
    type V = GoalView;

    open spec fn deep_view(&self) -> GoalView {
        self@
    }
}

/// Identifiers grow along the list. This is what the registry keeps at all
/// times; it makes every identifier occur at most once and the last goal's
/// identifier the greatest.
pub open spec fn ids_increasing(goals: Seq<GoalView>) -> bool {
    forall|i: int, j: int| 0 <= i < j < goals.len() ==> goals[i].id < goals[j].id
}

/// Some goal of the list has this identifier.
pub open spec fn has_goal(goals: Seq<GoalView>, id: nat) -> bool {
    exists|i: int| 0 <= i < goals.len() && goals[i].id == id
}

/// `at` is the place of the first goal with this identifier.
pub open spec fn is_position(goals: Seq<GoalView>, id: nat, at: int) -> bool {
    &&& 0 <= at < goals.len()
    &&& goals[at].id == id
    &&& forall|i: int| 0 <= i < at ==> goals[i].id != id
}

/// The place of the first goal with this identifier, for a list that has one.
pub open spec fn position(goals: Seq<GoalView>, id: nat) -> int {
    choose|at: int| is_position(goals, id, at)
}

/// The list after the goal with this identifier changed between done and not
/// done.
pub open spec fn toggled(goals: Seq<GoalView>, id: nat) -> Seq<GoalView> {
    let at = position(goals, id);
    goals.update(at, GoalView { completed: !goals[at].completed, ..goals[at] })
}

/// The list after the goal with this identifier got a new title and date.
pub open spec fn updated(goals: Seq<GoalView>, id: nat, title: Seq<char>, date: Date) -> Seq<
    GoalView,
> {
    let at = position(goals, id);
    goals.update(at, GoalView { title, date, ..goals[at] })
}

/// The list without the goal with this identifier; the others keep their
/// order.
pub open spec fn removed(goals: Seq<GoalView>, id: nat) -> Seq<GoalView> {
    goals.remove(position(goals, id))
}

/// The identifier that the next new goal gets: one more than the last
/// goal's, and zero in an empty list.
pub open spec fn next_id(goals: Seq<GoalView>) -> nat {
    if goals.len() == 0 {
        0
    } else {
        goals.last().id + 1
    }
}

/// A goal as it is when new: not done, no title, the zero date.
pub open spec fn blank(id: nat) -> GoalView {
    GoalView { id, completed: false, title: Seq::empty(), date: Date::zero() }
}

/// The list with a new goal at its end.
pub open spec fn appended(goals: Seq<GoalView>) -> Seq<GoalView> {
    goals.push(blank(next_id(goals)))
}

/// How many goals of the list are done.
pub open spec fn completed_count(goals: Seq<GoalView>) -> nat {
    goals.filter(|goal: GoalView| goal.completed).len()
}

/// The titles of the list, one after the other without a separator.
pub open spec fn joined_titles(goals: Seq<GoalView>) -> Seq<char> {
    goals.map_values(|goal: GoalView| goal.title).flatten()
}

/// The first goal with an identifier is the only place `position` can name.
pub proof fn lemma_position_is_first(goals: Seq<GoalView>, id: nat, at: int)
    requires
        is_position(goals, id, at),
    ensures
        has_goal(goals, id),
        position(goals, id) == at,
{
    let chosen = position(goals, id);
    assert(is_position(goals, id, chosen));
    if chosen < at {
        assert(goals[chosen].id != id);
    } else if at < chosen {
        assert(goals[at].id != id);
    }
}

/// A list that has a goal with an identifier has a first one.
pub proof fn lemma_has_goal_position(goals: Seq<GoalView>, id: nat)
    requires
        has_goal(goals, id),
    ensures
        is_position(goals, id, position(goals, id)),
{
    let found = choose|i: int| 0 <= i < goals.len() && goals[i].id == id;
    lemma_first_before(goals, id, found);
}

/// Below any goal with an identifier there is a first one.
proof fn lemma_first_before(goals: Seq<GoalView>, id: nat, found: int)
    requires
        0 <= found < goals.len(),
        goals[found].id == id,
    ensures
        is_position(goals, id, position(goals, id)),
        position(goals, id) <= found,
    decreases found,
{
    if exists|i: int| 0 <= i < found && goals[i].id == id {
        let earlier = choose|i: int| 0 <= i < found && goals[i].id == id;
        lemma_first_before(goals, id, earlier);
    } else {
        assert(is_position(goals, id, found));
        lemma_position_is_first(goals, id, found);
    }
}

} // verus!
