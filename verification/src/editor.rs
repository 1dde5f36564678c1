//! Editing one goal in place: a row of the goal list is either shown or
//! being edited, and what a click or an input does depends on which.

use vstd::prelude::*;
use crate::date::Date;
use crate::goal::{has_goal, removed, toggled, updated, Goal};
use crate::text::{count_or_zero, written_count};
use crate::user::{GoalError, ProfileView, UserProfile};

verus! {

/// The title and date that an edited row holds until they are written back.
#[derive(Clone, PartialEq, Eq, Debug)]
pub struct Draft {
    pub title: String,
    pub date: Date,
}

/// A draft as contracts see it.
pub struct DraftView {
    pub title: Seq<char>,
    pub date: Date,
}

impl View for Draft {
    type V = DraftView;

    open spec fn view(&self) -> DraftView {
        DraftView { title: self.title@, date: self.date }
    }
}

/// The state of one row: shown, or edited with a draft. A row starts as
/// shown. The pencil takes it to edited and back; there is no way back that
/// drops the draft.
#[derive(Clone, PartialEq, Eq, Debug)]
pub struct GoalEditor {
    draft: Option<Draft>,
}

/// The count that a number field holds: what is no count stands for zero.
pub open spec fn field_count(value: Seq<char>) -> usize {
    match written_count(value) {
        Some(written) => written,
        None => 0,
    }
}

impl View for GoalEditor {
    type V = Option<DraftView>;

    closed spec fn view(&self) -> Option<DraftView> {
        match self.draft {
            Some(draft) => Some(draft@),
            None => None,
        }
    }
}

impl GoalEditor {
    /// A row that is shown.
    pub fn new() -> (editor: GoalEditor)
        ensures
            editor@ is None,
    {
        GoalEditor { draft: None }
    }

    /// Whether the row is being edited. The checkbox of such a row is
    /// disabled and its bin is not offered.
    pub fn is_editing(&self) -> (editing: bool)
        ensures
            editing == (self@ is Some),
    {
        self.draft.is_some()
    }

    /// The draft of a row that is being edited.
    pub fn draft(&self) -> (draft: Option<&Draft>)
        ensures
            match draft {
                Some(held) => self@ == Some(held@),
                None => self@ is None,
            },
    {
        self.draft.as_ref()
    }

    /// The pencil was clicked. A shown row becomes edited, its draft taken
    /// from the goal as it is. An edited row writes its draft back to the
    /// goal and becomes shown; where the goal is gone meanwhile the draft is
    /// lost and the registry stays as it was.
    pub fn pencil_clicked(&mut self, goal: &Goal, profile: &mut UserProfile) -> (outcome: Result<
        (),
        GoalError,
    >)
        requires
            old(profile).wf(),
        ensures
            final(profile).wf(),
            match old(self)@ {
                None => outcome is Ok && final(profile)@ == old(profile)@ && final(self)@ == Some(
                    DraftView { title: goal@.title, date: goal@.date },
                ),
                Some(draft) => final(self)@ is None && if has_goal(old(profile)@.goals, goal@.id) {
                    outcome is Ok && final(profile)@ == (ProfileView {
                        goals: updated(old(profile)@.goals, goal@.id, draft.title, draft.date),
                        ..old(profile)@
                    })
                } else {
                    outcome is Err && final(profile)@ == old(profile)@
                },
            },
    {
        match self.draft.take() {
            None => {
                self.draft = Some(Draft { title: goal.title.clone(), date: goal.date });
                Ok(())
            },
            Some(draft) => profile.update_goal(goal.id, draft.title, draft.date),
        }
    }

    /// The checkbox changed. On a shown row the goal changes between done
    /// and not done; on an edited row nothing happens.
    pub fn checkbox_changed(&self, goal: &Goal, profile: &mut UserProfile) -> (outcome: Result<
        (),
        GoalError,
    >)
        requires
            old(profile).wf(),
        ensures
            final(profile).wf(),
            if self@ is None && has_goal(old(profile)@.goals, goal@.id) {
                outcome is Ok && final(profile)@ == (ProfileView {
                    goals: toggled(old(profile)@.goals, goal@.id),
                    ..old(profile)@
                })
            } else {
                final(profile)@ == old(profile)@ && (outcome is Ok <==> self@ is Some)
            },
    {
        if self.draft.is_some() {
            Ok(())
        } else {
            profile.mark_goal_as_completed(goal.id)
        }
    }

    /// The bin was clicked. On a shown row the goal leaves the registry; on
    /// an edited row nothing happens.
    pub fn trash_clicked(&self, goal: &Goal, profile: &mut UserProfile) -> (outcome: Result<
        (),
        GoalError,
    >)
        requires
            old(profile).wf(),
        ensures
            final(profile).wf(),
            if self@ is None && has_goal(old(profile)@.goals, goal@.id) {
                outcome is Ok && final(profile)@ == (ProfileView {
                    goals: removed(old(profile)@.goals, goal@.id),
                    ..old(profile)@
                })
            } else {
                final(profile)@ == old(profile)@ && (outcome is Ok <==> self@ is Some)
            },
    {
        if self.draft.is_some() {
            Ok(())
        } else {
            profile.remove_goal(goal.id)
        }
    }

    /// The title field changed: the draft of an edited row takes the text.
    pub fn title_input(&mut self, value: &str)
        ensures
            final(self)@ == match old(self)@ {
                Some(draft) => Some(DraftView { title: value@, ..draft }),
                None => None,
            },
    {
        match self.draft.take() {
            Some(draft) => {
                self.draft = Some(Draft { title: value.to_owned(), date: draft.date });
            },
            None => {},
        }
    }

    /// The day field changed: the draft of an edited row takes the count.
    pub fn day_input(&mut self, value: &str)
        ensures
            final(self)@ == match old(self)@ {
                Some(draft) => Some(
                    DraftView { date: Date { day: field_count(value@), ..draft.date }, ..draft },
                ),
                None => None,
            },
    {
        match self.draft.take() {
            Some(draft) => {
                let date = Date { day: count_or_zero(value), month: draft.date.month, year: draft.date.year };
                self.draft = Some(Draft { title: draft.title, date });
            },
            None => {},
        }
    }

    /// The month field changed: the draft of an edited row takes the count.
    pub fn month_input(&mut self, value: &str)
        ensures
            final(self)@ == match old(self)@ {
                Some(draft) => Some(
                    DraftView { date: Date { month: field_count(value@), ..draft.date }, ..draft },
                ),
                None => None,
            },
    {
        match self.draft.take() {
            Some(draft) => {
                let date = Date { day: draft.date.day, month: count_or_zero(value), year: draft.date.year };
                self.draft = Some(Draft { title: draft.title, date });
            },
            None => {},
        }
    }

    /// The year field changed: the draft of an edited row takes the count.
    pub fn year_input(&mut self, value: &str)
        ensures
            final(self)@ == match old(self)@ {
                Some(draft) => Some(
                    DraftView { date: Date { year: field_count(value@), ..draft.date }, ..draft },
                ),
                None => None,
            },
    {
        match self.draft.take() {
            Some(draft) => {
                let date = Date { day: draft.date.day, month: draft.date.month, year: count_or_zero(value) };
                self.draft = Some(Draft { title: draft.title, date });
            },
            None => {},
        }
    }
}

} // verus!
