//! The user panel: whether it is open, which of its sections are shown, and
//! the lines of the diagnostics section.

use vstd::prelude::*;
use crate::diagnostics::UserDiagnostics;

verus! {

/// Whether the user panel is open.
#[derive(Clone, Copy, PartialEq, Eq, Debug, Structural)]
pub struct Visible(pub bool);

impl Visible {
    /// The button of the panel was clicked: an open panel closes and a
    /// closed one opens.
    pub fn toggle(&mut self)
        ensures
            final(self).0 == !old(self).0,
    {
        self.0 = !self.0;
    }
}

/// One section of the user panel.
#[derive(Clone, Copy, PartialEq, Eq, Debug, Structural)]
pub enum Section {
    HideButton,
    Profile,
    Diagnostics,
    ReadData,
    Goals,
    AddGoal,
}

/// The sections of an open panel, from top to bottom.
pub open spec fn open_sections() -> Seq<Section> {
    seq![
        Section::HideButton,
        Section::Profile,
        Section::Diagnostics,
        Section::ReadData,
        Section::Goals,
        Section::AddGoal,
    ]
}

/// The sections that the panel shows: all of them when it is open, and the
/// button alone when it is closed.
pub fn sections(visible: Visible) -> (shown: Vec<Section>)
    ensures
        shown@ == if visible.0 {
            open_sections()
        } else {
            seq![Section::HideButton]
        },
{
    let mut shown: Vec<Section> = Vec::new();
    shown.push(Section::HideButton);
    if visible.0 {
        shown.push(Section::Profile);
        shown.push(Section::Diagnostics);
        shown.push(Section::ReadData);
        shown.push(Section::Goals);
        shown.push(Section::AddGoal);
        assert(shown@ =~= open_sections());
    } else {
        assert(shown@ =~= seq![Section::HideButton]);
    }
    shown
}

/// The lines of the diagnostics section as heading and counter, in the
/// order in which they are shown.
pub open spec fn diagnostic_lines(record: UserDiagnostics) -> Seq<(Seq<char>, usize)> {
    seq![
        ("Total Study Time"@, record.total_study_time),
        ("Daily Average"@, record.daily_average),
        ("Vocab Size"@, record.vocab_size),
        ("Chapters Read"@, record.chapters_read),
        ("Books Read"@, record.books_read),
        ("Videos Watched"@, record.videos_watched),
        ("Goals Completed"@, record.goals_completed),
    ]
}

/// A line as contracts see it.
pub open spec fn line_view(line: (&'static str, usize)) -> (Seq<char>, usize) {
    (line.0@, line.1)
}

/// The lines of the diagnostics section.
pub fn lines(record: &UserDiagnostics) -> (shown: Vec<(&'static str, usize)>)
    ensures
        shown@.map_values(|line: (&'static str, usize)| line_view(line)) == diagnostic_lines(*record),
{
    let mut shown: Vec<(&'static str, usize)> = Vec::new();
    shown.push(("Total Study Time", record.total_study_time));
    shown.push(("Daily Average", record.daily_average));
    shown.push(("Vocab Size", record.vocab_size));
    shown.push(("Chapters Read", record.chapters_read));
    shown.push(("Books Read", record.books_read));
    shown.push(("Videos Watched", record.videos_watched));
    shown.push(("Goals Completed", record.goals_completed));
    assert(shown@.map_values(|line: (&'static str, usize)| line_view(line)) =~= diagnostic_lines(
        *record,
    ));
    shown
}

} // verus!
