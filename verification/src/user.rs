//! The user profile: who the user is, the diagnostics record, and the
//! registry of goals with its operations.

use vstd::prelude::*;
use vstd::string::StringExecFns;
use crate::date::Date;
use crate::diagnostics::{diagnostics_in, read_diagnostics, LoadError, UserDiagnostics};
use crate::json::parse_value;
use crate::goal::{
    appended, blank, completed_count, has_goal, ids_increasing, is_position, joined_titles,
    lemma_position_is_first, next_id, removed, toggled, updated, Goal, GoalView,
};

verus! {

/// What the profile panel shows of the user.
#[derive(Clone, PartialEq, Eq, Debug)]
pub struct User {
    pub picture_path: String,
    pub name: String,
}

/// A user as contracts see it.
pub struct UserView {
    pub picture_path: Seq<char>,
    pub name: Seq<char>,
}

impl View for User {
    type V = UserView;

    open spec fn view(&self) -> UserView {
        UserView { picture_path: self.picture_path@, name: self.name@ }
    }
}

/// Why an operation on the registry changed nothing.
#[derive(Clone, Copy, PartialEq, Eq, Debug, Structural)]
pub enum GoalError {
    /// No goal of the registry has the identifier.
    NotFound,
}

/// The profile of the session: user, diagnostics and goals. The goals are
/// reached through the operations below only, which keep their identifiers
/// growing along the list.
#[derive(Clone, PartialEq, Eq, Debug)]
pub struct UserProfile {
    profile: User,
    diagnostics: UserDiagnostics,
    goals: Vec<Goal>,
    visible_at_startup: bool,
}

/// A profile as contracts see it.
pub struct ProfileView {
    pub profile: UserView,
    pub diagnostics: UserDiagnostics,
    pub goals: Seq<GoalView>,
    pub visible_at_startup: bool,
}

impl View for UserProfile {
    type V = ProfileView;

    closed spec fn view(&self) -> ProfileView {
        ProfileView {
            profile: self.profile@,
            diagnostics: self.diagnostics,
            goals: self.goals.deep_view(),
            visible_at_startup: self.visible_at_startup,
        }
    }
}

impl UserProfile {
    /// The invariant of the registry: identifiers grow along the list, so no
    /// two goals share one.
    pub open spec fn wf(&self) -> bool {
        ids_increasing(self@.goals)
    }

    /// The profile a session starts with: a nameless user, every counter at
    /// zero, one blank goal with identifier 0, and the panel visible.
    pub fn new() -> (profile: UserProfile)
        ensures
            profile.wf(),
            profile@ == (ProfileView {
                profile: UserView { picture_path: Seq::empty(), name: Seq::empty() },
                diagnostics: UserDiagnostics::empty(),
                goals: seq![blank(0)],
                visible_at_startup: true,
            }),
    {
        let mut goals: Vec<Goal> = Vec::new();
        goals.push(Goal { id: 0, completed: false, title: String::new(), date: Date::zero() });
        let profile = UserProfile {
            profile: User { picture_path: String::new(), name: String::new() },
            diagnostics: UserDiagnostics::empty(),
            goals,
            visible_at_startup: true,
        };
        assert(profile@.goals =~= seq![blank(0)]);
        profile
    }

    /// Sets the picture and the name of the user.
    pub fn with_data(&mut self, picture_path: &str, user_name: &str)
        ensures
            final(self)@ == (ProfileView {
                profile: UserView { picture_path: picture_path@, name: user_name@ },
                ..old(self)@
            }),
    {
        self.profile.picture_path = picture_path.to_owned();
        self.profile.name = user_name.to_owned();
    }

    /// The user as shown.
    pub fn profile(&self) -> (user: &User)
        ensures
            user@ == self@.profile,
    {
        &self.profile
    }

    /// The diagnostics record.
    pub fn diagnostics(&self) -> (record: UserDiagnostics)
        ensures
            record == self@.diagnostics,
    {
        self.diagnostics
    }

    /// The goals in their order.
    pub fn goals(&self) -> (goals: &Vec<Goal>)
        ensures
            goals.deep_view() == self@.goals,
    {
        &self.goals
    }

    /// Whether the panel is shown when the session starts.
    pub fn visible_at_startup(&self) -> (visible: bool)
        ensures
            visible == self@.visible_at_startup,
    {
        self.visible_at_startup
    }

    /// Recomputes what the profile derives from its goals: the user's name
    /// becomes the goals' titles one after the other, and the counter of
    /// completed goals becomes the number of goals that are done, whatever
    /// it was before.
    pub fn test(&mut self)
        ensures
            final(self)@ == (ProfileView {
                profile: UserView { name: joined_titles(old(self)@.goals), ..old(self)@.profile },
                diagnostics: UserDiagnostics {
                    goals_completed: final(self)@.diagnostics.goals_completed,
                    ..old(self)@.diagnostics
                },
                ..old(self)@
            }),
            final(self)@.diagnostics.goals_completed == completed_count(old(self)@.goals),
    {
        let ghost goals = self@.goals;
        let mut name = String::new();
        let mut done: usize = 0;
        let mut at: usize = 0;
        proof {
            assert(goals.take(0) =~= Seq::<GoalView>::empty());
            assert(goals.take(0).map_values(|goal: GoalView| goal.title) =~= Seq::<Seq<char>>::empty());
        }
        while at < self.goals.len()
            invariant
                goals == self@.goals,
                at <= self.goals.len(),
                name@ == joined_titles(goals.take(at as int)),
                done == completed_count(goals.take(at as int)),
                done <= at,
            decreases self.goals.len() - at,
        {
            proof {
                lemma_take_next(goals, at as int);
            }
            name.append(self.goals[at].title.as_str());
            if self.goals[at].completed {
                done += 1;
            }
            at += 1;
        }
        assert(goals.take(at as int) =~= goals);
        self.profile.name = name;
        self.diagnostics.goals_completed = done;
    }

    /// Reads the diagnostics record out of a JSON text.
    pub fn deserialize_diagnostics(diagnostic_data: &String) -> (record: Result<
        UserDiagnostics,
        LoadError,
    >)
        ensures
            record == match diagnostics_in(diagnostic_data@) {
                Some(found) => Ok::<UserDiagnostics, LoadError>(found),
                None => Err(LoadError::Parse),
            },
    {
        match parse_value(diagnostic_data.as_str()) {
            Ok(document) => read_diagnostics(&document),
            Err(_) => Err(LoadError::Parse),
        }
    }

    /// The step between reading a record and showing it. It changes
    /// nothing.
    pub fn process_diagnostics(diagnostics: UserDiagnostics) -> (processed: UserDiagnostics)
        ensures
            processed == diagnostics,
    {
        diagnostics
    }

    /// Takes what reading the diagnostics file gave and, where that is a
    /// JSON document with all seven counters, replaces the whole record by
    /// it. A file that could not be read and a content that does not hold
    /// the record leave the profile as it was.
    pub fn generate_diagnostic_data(&mut self, raw_diagnostic_data: Result<String, std::io::Error>) -> (outcome:
        Result<(), LoadError>)
        ensures
            match outcome {
                Ok(_) => raw_diagnostic_data matches Ok(text) && diagnostics_in(text@) matches Some(
                    record,
                ) && final(self)@ == (ProfileView { diagnostics: record, ..old(self)@ }),
                Err(LoadError::Io) => raw_diagnostic_data is Err && final(self)@ == old(self)@,
                Err(LoadError::Parse) => raw_diagnostic_data matches Ok(text) && diagnostics_in(
                    text@,
                ) is None && final(self)@ == old(self)@,
            },
    {
        match raw_diagnostic_data {
            Ok(text) => match UserProfile::deserialize_diagnostics(&text) {
                Ok(diagnostics) => {
                    self.diagnostics = UserProfile::process_diagnostics(diagnostics);
                    Ok(())
                },
                Err(error) => Err(error),
            },
            Err(_) => Err(LoadError::Io),
        }
    }

    /// The place of the first goal with this identifier.
    fn find(&self, id: usize) -> (found: Option<usize>)
        ensures
            match found {
                Some(at) => is_position(self@.goals, id as nat, at as int),
                None => !has_goal(self@.goals, id as nat),
            },
    {
        let mut at: usize = 0;
        while at < self.goals.len()
            invariant
                at <= self.goals.len(),
                forall|i: int| 0 <= i < at ==> self@.goals[i].id != id,
            decreases self.goals.len() - at,
        {
            if self.goals[at].id == id {
                return Some(at);
            }
            at += 1;
        }
        None
    }

    /// Appends a blank goal whose identifier is one more than the last
    /// goal's, or 0 in an empty registry.
    pub fn add_goal(&mut self)
        requires
            old(self).wf(),
            next_id(old(self)@.goals) <= usize::MAX,
        ensures
            final(self).wf(),
            final(self)@ == (ProfileView { goals: appended(old(self)@.goals), ..old(self)@ }),
    {
        let id: usize = if self.goals.len() == 0 {
            0
        } else {
            self.goals[self.goals.len() - 1].id + 1
        };
        let goal = Goal { id, completed: false, title: String::new(), date: Date::zero() };
        self.goals.push(goal);
        assert(self@.goals =~= appended(old(self)@.goals));
    }

    /// Changes the goal with this identifier between done and not done.
    pub fn mark_goal_as_completed(&mut self, id: usize) -> (outcome: Result<(), GoalError>)
        requires
            old(self).wf(),
        ensures
            final(self).wf(),
            match outcome {
                Ok(_) => has_goal(old(self)@.goals, id as nat) && final(self)@ == (ProfileView {
                    goals: toggled(old(self)@.goals, id as nat),
                    ..old(self)@
                }),
                Err(_) => !has_goal(old(self)@.goals, id as nat) && final(self)@ == old(self)@,
            },
    {
        match self.find(id) {
            Some(at) => {
                proof {
                    lemma_position_is_first(self@.goals, id as nat, at as int);
                }
                let done = self.goals[at].completed;
                self.goals[at].completed = !done;
                assert(self@.goals =~= toggled(old(self)@.goals, id as nat));
                Ok(())
            },
            None => Err(GoalError::NotFound),
        }
    }

    /// Gives the goal with this identifier a new title and date. Its
    /// identifier and whether it is done stay.
    pub fn update_goal(&mut self, id: usize, title: String, date: Date) -> (outcome: Result<
        (),
        GoalError,
    >)
        requires
            old(self).wf(),
        ensures
            final(self).wf(),
            match outcome {
                Ok(_) => has_goal(old(self)@.goals, id as nat) && final(self)@ == (ProfileView {
                    goals: updated(old(self)@.goals, id as nat, title@, date),
                    ..old(self)@
                }),
                Err(_) => !has_goal(old(self)@.goals, id as nat) && final(self)@ == old(self)@,
            },
    {
        match self.find(id) {
            Some(at) => {
                proof {
                    lemma_position_is_first(self@.goals, id as nat, at as int);
                }
                self.goals[at].title = title;
                self.goals[at].date = date;
                assert(self@.goals =~= updated(old(self)@.goals, id as nat, title@, date));
                Ok(())
            },
            None => Err(GoalError::NotFound),
        }
    }

    /// Takes the goal with this identifier out of the registry.
    pub fn remove_goal(&mut self, id: usize) -> (outcome: Result<(), GoalError>)
        requires
            old(self).wf(),
        ensures
            final(self).wf(),
            match outcome {
                Ok(_) => has_goal(old(self)@.goals, id as nat) && final(self)@ == (ProfileView {
                    goals: removed(old(self)@.goals, id as nat),
                    ..old(self)@
                }),
                Err(_) => !has_goal(old(self)@.goals, id as nat) && final(self)@ == old(self)@,
            },
    {
        match self.find(id) {
            Some(at) => {
                proof {
                    lemma_position_is_first(self@.goals, id as nat, at as int);
                }
                self.goals.remove(at);
                assert(self@.goals =~= removed(old(self)@.goals, id as nat));
                Ok(())
            },
            None => Err(GoalError::NotFound),
        }
    }
}

/// One goal more in the part of the list looked at adds its title to the
/// joined titles and, if it is done, one to the count.
proof fn lemma_take_next(goals: Seq<GoalView>, at: int)
    requires
        0 <= at < goals.len(),
    ensures
        joined_titles(goals.take(at + 1)) == joined_titles(goals.take(at)) + goals[at].title,
        completed_count(goals.take(at + 1)) == completed_count(goals.take(at)) + (if goals[at].completed {
            1nat
        } else {
            0nat
        }),
        completed_count(goals.take(at)) <= at,
{
    let before = goals.take(at);
    let title = |goal: GoalView| goal.title;
    let done = |goal: GoalView| goal.completed;
    assert(goals.take(at + 1) =~= before.push(goals[at]));
    assert(before.push(goals[at]).map_values(title) =~= before.map_values(title).push(goals[at].title));
    before.map_values(title).lemma_flatten_push(goals[at].title);
    before.lemma_filter_len_push(done, goals[at]);
    before.lemma_filter_len(done);
}

} // verus!
