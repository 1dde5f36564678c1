//! The quick-action selector: one category out of three, chosen by the
//! label of the button that was clicked.

use vstd::prelude::*;
use crate::text::same_text;

verus! {

/// What the quick actions can be about.
#[derive(Clone, Copy, PartialEq, Eq, Debug, Structural)]
pub enum Category {
    Books,
    Video,
    Audio,
}

/// The category that a label names. A label that names none stands for the
/// first category.
pub open spec fn category_of(title: Seq<char>) -> Category {
    if title == "Books"@ {
        Category::Books
    } else if title == "Video"@ {
        Category::Video
    } else if title == "Audio"@ {
        Category::Audio
    } else {
        Category::Books
    }
}

/// The category that is selected at the moment.
#[derive(Clone, Copy, PartialEq, Eq, Debug)]
pub struct SelectedCategory {
    curr: Category,
}

impl View for SelectedCategory {
    type V = Category;

    closed spec fn view(&self) -> Category {
        self.curr
    }
}

impl SelectedCategory {
    /// A selector on its first category, books.
    pub fn new() -> (selected: SelectedCategory)
        ensures
            selected@ == Category::Books,
    {
        SelectedCategory { curr: Category::Books }
    }

    /// The selected category.
    pub fn current(&self) -> (category: Category)
        ensures
            category == self@,
    {
        self.curr
    }

    /// Selects the category that the label names.
    pub fn change_category(&mut self, title: &str)
        ensures
            final(self)@ == category_of(title@),
    {
        if same_text(title, "Books") {
            self.curr = Category::Books;
        } else if same_text(title, "Video") {
            self.curr = Category::Video;
        } else if same_text(title, "Audio") {
            self.curr = Category::Audio;
        } else {
            self.curr = Category::Books;
        }
    }
}

/// The labels of the three buttons, in the order in which they are shown.
pub fn topics() -> (labels: Vec<&'static str>)
    ensures
        labels@.len() == 3,
        labels@[0]@ == "Books"@,
        labels@[1]@ == "Video"@,
        labels@[2]@ == "Audio"@,
        category_of(labels@[0]@) == Category::Books,
        category_of(labels@[1]@) == Category::Video,
        category_of(labels@[2]@) == Category::Audio,
{
    proof {
        reveal_strlit("Books");
        reveal_strlit("Video");
        reveal_strlit("Audio");
        assert("Books"@[0] != "Video"@[0]);
        assert("Books"@[0] != "Audio"@[0]);
        assert("Video"@[0] != "Audio"@[0]);
    }
    let mut labels: Vec<&'static str> = Vec::new();
    labels.push("Books");
    labels.push("Video");
    labels.push("Audio");
    labels
}

} // verus!
