//! The study log and the form that adds entries to it.

use vstd::prelude::*;
use crate::date::Date;
use crate::text::{count_or_zero, same_text, written_count};

verus! {

/// What kind of study an entry records.
#[derive(Clone, Copy, PartialEq, Eq, Debug, Structural)]
pub enum EntryType {
    FlashCard,
    Listening,
    Reading,
    Speaking,
    Writing,
    Other,
}

/// The kind that a label of the form's selector names. A label that names
/// none stands for `Other`.
pub open spec fn entry_type_of(label: Seq<char>) -> EntryType {
    if label == "FlashCard"@ {
        EntryType::FlashCard
    } else if label == "Listening"@ {
        EntryType::Listening
    } else if label == "Reading"@ {
        EntryType::Reading
    } else if label == "Speaking"@ {
        EntryType::Speaking
    } else if label == "Writing"@ {
        EntryType::Writing
    } else {
        EntryType::Other
    }
}

impl EntryType {
    /// The kind that a label names.
    pub fn from_label(label: &str) -> (kind: EntryType)
        ensures
            kind == entry_type_of(label@),
    {
        if same_text(label, "FlashCard") {
            EntryType::FlashCard
        } else if same_text(label, "Listening") {
            EntryType::Listening
        } else if same_text(label, "Reading") {
            EntryType::Reading
        } else if same_text(label, "Speaking") {
            EntryType::Speaking
        } else if same_text(label, "Writing") {
            EntryType::Writing
        } else {
            EntryType::Other
        }
    }

    /// The label under which the selector offers this kind.
    pub fn label(self) -> (label: &'static str)
        ensures
            label@ == match self {
                EntryType::FlashCard => "FlashCard"@,
                EntryType::Listening => "Listening"@,
                EntryType::Reading => "Reading"@,
                EntryType::Speaking => "Speaking"@,
                EntryType::Writing => "Writing"@,
                EntryType::Other => "Other"@,
            },
            entry_type_of(label@) == self,
    {
        proof {
            reveal_strlit("FlashCard");
            reveal_strlit("Listening");
            reveal_strlit("Reading");
            reveal_strlit("Speaking");
            reveal_strlit("Writing");
            reveal_strlit("Other");
            assert("FlashCard"@[0] == 'F' && "Listening"@[0] == 'L' && "Reading"@[0] == 'R');
            assert("Speaking"@[0] == 'S' && "Writing"@[0] == 'W' && "Other"@[0] == 'O');
        }
        match self {
            EntryType::FlashCard => "FlashCard",
            EntryType::Listening => "Listening",
            EntryType::Reading => "Reading",
            EntryType::Speaking => "Speaking",
            EntryType::Writing => "Writing",
            EntryType::Other => "Other",
        }
    }
}

/// One entry of the study log.
#[derive(Clone, PartialEq, Eq, Debug)]
pub struct Entry {
    pub title: String,
    pub entry_type: EntryType,
    pub hours: usize,
    pub date: Date,
}

/// An entry as contracts see it.
pub struct EntryView {
    pub title: Seq<char>,
    pub entry_type: EntryType,
    pub hours: usize,
    pub date: Date,
}

impl View for Entry {
    type V = EntryView;

    open spec fn view(&self) -> EntryView {
        EntryView {
            title: self.title@,
            entry_type: self.entry_type,
            hours: self.hours,
            date: self.date,
        }
    }
}

impl DeepView for Entry {
    type V = EntryView;

    open spec fn deep_view(&self) -> EntryView {
        self@
    }
}

impl Entry {
    /// The entry made of these four values.
    pub fn from_data(title: String, entry_type: EntryType, hours: usize, date: Date) -> (entry: Entry)
        ensures
            entry@ == (EntryView { title: title@, entry_type, hours, date }),
    {
        Entry { title, entry_type, hours, date }
    }
}

/// The study log of the session: its entries in the order in which they
/// were added.
#[derive(Clone, PartialEq, Eq, Debug)]
pub struct LogData {
    entries: Vec<Entry>,
}

impl View for LogData {
    type V = Seq<EntryView>;

    closed spec fn view(&self) -> Seq<EntryView> {
        self.entries.deep_view()
    }
}

impl LogData {
    /// A log without entries.
    pub fn new() -> (log: LogData)
        ensures
            log@ == Seq::<EntryView>::empty(),
    {
        let log = LogData { entries: Vec::new() };
        assert(log@ =~= Seq::<EntryView>::empty());
        log
    }

    /// The entries in the order in which they were added.
    pub fn entries(&self) -> (entries: &Vec<Entry>)
        ensures
            entries.deep_view() == self@,
    {
        &self.entries
    }

    /// Adds an entry at the end of the log.
    pub fn add_entry(&mut self, title: String, entry_type: EntryType, hours: usize, date: Date)
        ensures
            final(self)@ == old(self)@.push(EntryView { title: title@, entry_type, hours, date }),
    {
        let entry = Entry::from_data(title, entry_type, hours, date);
        self.entries.push(entry);
        assert(self@ =~= old(self)@.push(EntryView { title: title@, entry_type, hours, date }));
    }
}

/// What the entry form holds between two inputs.
#[derive(Clone, PartialEq, Eq, Debug)]
pub struct LogForm {
    title: String,
    entry_type: EntryType,
    hours: usize,
    date: Date,
}

impl View for LogForm {
    type V = EntryView;

    closed spec fn view(&self) -> EntryView {
        EntryView {
            title: self.title@,
            entry_type: self.entry_type,
            hours: self.hours,
            date: self.date,
        }
    }
}

impl LogForm {
    /// The form as it is first shown: no title, kind `Other`, zero hours and
    /// the zero date.
    pub fn new() -> (form: LogForm)
        ensures
            form@ == (EntryView {
                title: Seq::empty(),
                entry_type: EntryType::Other,
                hours: 0,
                date: Date::zero(),
            }),
    {
        LogForm { title: String::new(), entry_type: EntryType::Other, hours: 0, date: Date::zero() }
    }

    /// The title field changed.
    pub fn title_input(&mut self, value: &str)
        ensures
            final(self)@ == (EntryView { title: value@, ..old(self)@ }),
    {
        self.title = value.to_owned();
    }

    /// Another kind was selected.
    pub fn type_input(&mut self, value: &str)
        ensures
            final(self)@ == (EntryView { entry_type: entry_type_of(value@), ..old(self)@ }),
    {
        self.entry_type = EntryType::from_label(value);
    }

    /// The hours field changed. What is no count stands for zero hours.
    pub fn hours_input(&mut self, value: &str)
        ensures
            final(self)@ == (EntryView {
                hours: match written_count(value@) {
                    Some(written) => written,
                    None => 0,
                },
                ..old(self)@
            }),
    {
        self.hours = count_or_zero(value);
    }

    /// The date field changed. The form does not take the date up: its
    /// entries keep the zero date.
    pub fn date_input(&mut self, value: &str)
        ensures
            final(self)@ == old(self)@,
    {
    }

    /// The button was clicked: what the form holds becomes the last entry of
    /// the log. The form keeps its values.
    pub fn submit(&self, log: &mut LogData)
        ensures
            final(log)@ == old(log)@.push(self@),
    {
        log.add_entry(self.title.clone(), self.entry_type, self.hours, self.date);
    }
}

} // verus!
