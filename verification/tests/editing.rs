use nazad::date::Date;
use nazad::editor::{Draft, GoalEditor};
use nazad::user::{GoalError, UserProfile};

fn profile_with_goal() -> UserProfile {
    let mut profile = UserProfile::new();
    let date = Date { day: 1, month: 2, year: 2023 };
    assert_eq!(profile.update_goal(0, String::from("Read"), date), Ok(()));
    profile
}

#[test]
fn a_row_starts_as_shown() {
    let editor = GoalEditor::new();
    assert!(!editor.is_editing());
    assert_eq!(editor.draft(), None);
}

#[test]
fn pencil_seeds_the_draft_from_the_goal() {
    let mut profile = profile_with_goal();
    let goal = profile.goals()[0].clone();
    let before = profile.clone();
    let mut editor = GoalEditor::new();
    assert_eq!(editor.pencil_clicked(&goal, &mut profile), Ok(()));
    assert!(editor.is_editing());
    assert_eq!(
        editor.draft(),
        Some(&Draft { title: String::from("Read"), date: Date { day: 1, month: 2, year: 2023 } })
    );
    assert_eq!(profile, before);
}

#[test]
fn second_pencil_click_writes_the_draft_back() {
    let mut profile = profile_with_goal();
    assert_eq!(profile.mark_goal_as_completed(0), Ok(()));
    let goal = profile.goals()[0].clone();
    let mut editor = GoalEditor::new();
    assert_eq!(editor.pencil_clicked(&goal, &mut profile), Ok(()));
    editor.title_input("Read more");
    editor.day_input("15");
    editor.month_input("x");
    editor.year_input("2024");
    assert_eq!(profile.goals()[0].title, "Read");
    assert_eq!(editor.pencil_clicked(&goal, &mut profile), Ok(()));
    assert!(!editor.is_editing());
    let stored = &profile.goals()[0];
    assert_eq!(stored.id, 0);
    assert!(stored.completed);
    assert_eq!(stored.title, "Read more");
    assert_eq!(stored.date, Date { day: 15, month: 0, year: 2024 });
}

#[test]
fn edited_row_ignores_checkbox_and_bin() {
    let mut profile = profile_with_goal();
    let goal = profile.goals()[0].clone();
    let mut editor = GoalEditor::new();
    assert_eq!(editor.pencil_clicked(&goal, &mut profile), Ok(()));
    let before = profile.clone();
    assert_eq!(editor.checkbox_changed(&goal, &mut profile), Ok(()));
    assert_eq!(editor.trash_clicked(&goal, &mut profile), Ok(()));
    assert_eq!(profile, before);
}

#[test]
fn shown_row_toggles_and_removes() {
    let mut profile = profile_with_goal();
    profile.add_goal();
    let goal = profile.goals()[1].clone();
    let editor = GoalEditor::new();
    assert_eq!(editor.checkbox_changed(&goal, &mut profile), Ok(()));
    assert!(profile.goals()[1].completed);
    assert_eq!(editor.trash_clicked(&goal, &mut profile), Ok(()));
    assert_eq!(profile.goals().len(), 1);
    assert_eq!(profile.goals()[0].id, 0);
    assert_eq!(editor.checkbox_changed(&goal, &mut profile), Err(GoalError::NotFound));
    assert_eq!(editor.trash_clicked(&goal, &mut profile), Err(GoalError::NotFound));
}

#[test]
fn shown_row_ignores_field_input() {
    let mut editor = GoalEditor::new();
    editor.title_input("x");
    editor.day_input("1");
    editor.month_input("2");
    editor.year_input("3");
    assert!(!editor.is_editing());
    assert_eq!(editor, GoalEditor::new());
}

#[test]
fn draft_of_a_removed_goal_is_lost() {
    let mut profile = profile_with_goal();
    let goal = profile.goals()[0].clone();
    let mut editor = GoalEditor::new();
    assert_eq!(editor.pencil_clicked(&goal, &mut profile), Ok(()));
    editor.title_input("gone");
    assert_eq!(profile.remove_goal(0), Ok(()));
    assert_eq!(editor.pencil_clicked(&goal, &mut profile), Err(GoalError::NotFound));
    assert!(!editor.is_editing());
    assert!(profile.goals().is_empty());
}
