use nazad::actions::{topics, Category, SelectedCategory};
use nazad::dashboard::header;
use nazad::date::Date;
use nazad::log::{Entry, EntryType, LogData, LogForm};
use nazad::panel::{lines, sections, Section, Visible};
use nazad::text::{count_or_zero, read_count};
use nazad::diagnostics::UserDiagnostics;

#[test]
fn read_count_agrees_with_the_standard_parser() {
    let max = usize::MAX.to_string();
    let over = format!("{}0", max);
    let next = "18446744073709551616";
    let samples = [
        "", "0", "7", "42", "007", "+5", "+", "-5", "-0", "5 ", " 5", "5a", "a5", "1_000", "12.5",
        "1e3", "++5", "+-5", "5+", "٣", "5é", "é", "00000000000000000000000000001",
        max.as_str(), over.as_str(), next, "99999999999999999999999999",
    ];
    for sample in samples {
        assert_eq!(read_count(sample), sample.parse::<usize>().ok(), "for {:?}", sample);
    }
}

#[test]
fn read_count_exact_values() {
    assert_eq!(read_count("10000"), Some(10000));
    assert_eq!(read_count("+12"), Some(12));
    assert_eq!(read_count("0"), Some(0));
    assert_eq!(read_count("abc"), None);
    assert_eq!(read_count(""), None);
}

#[test]
fn what_is_no_count_stands_for_zero() {
    assert_eq!(count_or_zero("3"), 3);
    assert_eq!(count_or_zero("three"), 0);
    assert_eq!(count_or_zero(""), 0);
    assert_eq!(count_or_zero("-3"), 0);
    assert_eq!(count_or_zero("2.5"), 0);
}

#[test]
fn selector_starts_on_books() {
    assert_eq!(SelectedCategory::new().current(), Category::Books);
}

#[test]
fn change_category_follows_the_label() {
    let mut selected = SelectedCategory::new();
    selected.change_category("Video");
    assert_eq!(selected.current(), Category::Video);
    selected.change_category("Audio");
    assert_eq!(selected.current(), Category::Audio);
    selected.change_category("Books");
    assert_eq!(selected.current(), Category::Books);
}

#[test]
fn unknown_label_selects_the_first_category() {
    let mut selected = SelectedCategory::new();
    for label in ["Podcasts", "", "video", "Audio "] {
        selected.change_category("Audio");
        selected.change_category(label);
        assert_eq!(selected.current(), Category::Books, "for {:?}", label);
    }
}

#[test]
fn every_topic_selects_its_own_category() {
    assert_eq!(topics(), vec!["Books", "Video", "Audio"]);
    let expected = [Category::Books, Category::Video, Category::Audio];
    let mut selected = SelectedCategory::new();
    for (label, category) in topics().into_iter().zip(expected) {
        selected.change_category(label);
        assert_eq!(selected.current(), category);
    }
}

#[test]
fn entry_type_from_label() {
    assert_eq!(EntryType::from_label("FlashCard"), EntryType::FlashCard);
    assert_eq!(EntryType::from_label("Listening"), EntryType::Listening);
    assert_eq!(EntryType::from_label("Reading"), EntryType::Reading);
    assert_eq!(EntryType::from_label("Speaking"), EntryType::Speaking);
    assert_eq!(EntryType::from_label("Writing"), EntryType::Writing);
    assert_eq!(EntryType::from_label("Other"), EntryType::Other);
    assert_eq!(EntryType::from_label("reading"), EntryType::Other);
    assert_eq!(EntryType::from_label(""), EntryType::Other);
}

#[test]
fn entry_type_labels_round_trip() {
    let kinds = [
        EntryType::FlashCard,
        EntryType::Listening,
        EntryType::Reading,
        EntryType::Speaking,
        EntryType::Writing,
        EntryType::Other,
    ];
    let labels: Vec<&str> = kinds.iter().map(|kind| kind.label()).collect();
    assert_eq!(labels, vec!["FlashCard", "Listening", "Reading", "Speaking", "Writing", "Other"]);
    for kind in kinds {
        assert_eq!(EntryType::from_label(kind.label()), kind);
    }
}

#[test]
fn log_keeps_entries_in_the_order_of_addition() {
    let mut log = LogData::new();
    assert!(log.entries().is_empty());
    let day = Date { day: 3, month: 4, year: 2023 };
    log.add_entry(String::from("Kanji"), EntryType::FlashCard, 2, day);
    log.add_entry(String::from("News"), EntryType::Reading, 1, Date::zero());
    assert_eq!(
        log.entries(),
        &vec![
            Entry::from_data(String::from("Kanji"), EntryType::FlashCard, 2, day),
            Entry { title: String::from("News"), entry_type: EntryType::Reading, hours: 1, date: Date::zero() },
        ]
    );
}

#[test]
fn form_submits_what_it_holds() {
    let mut log = LogData::new();
    let mut form = LogForm::new();
    form.submit(&mut log);
    assert_eq!(log.entries()[0], Entry::from_data(String::new(), EntryType::Other, 0, Date::zero()));

    form.title_input("Podcast");
    form.type_input("Listening");
    form.hours_input("3");
    form.date_input("2024-02-01");
    form.submit(&mut log);
    assert_eq!(
        log.entries()[1],
        Entry::from_data(String::from("Podcast"), EntryType::Listening, 3, Date::zero())
    );

    form.hours_input("lots");
    form.type_input("Dancing");
    form.submit(&mut log);
    assert_eq!(
        log.entries()[2],
        Entry::from_data(String::from("Podcast"), EntryType::Other, 0, Date::zero())
    );
    assert_eq!(log.entries().len(), 3);
}

#[test]
fn header_names_the_tool_and_the_day() {
    let head = header(0);
    assert_eq!(head.title, "Nazad");
    assert_eq!(head.day, "Thu Jan  1 1970");
    assert_eq!(header(1_793_145_600).day, "Wed Oct 28 2026");
    assert_eq!(header(86_399).day, "Thu Jan  1 1970");
    assert_eq!(header(86_400).day, "Fri Jan  2 1970");
    assert_eq!(header(-1).day, "Wed Dec 31 1969");
}

#[test]
fn header_without_a_day() {
    let head = header(i64::MAX);
    assert_eq!(head.title, "Nazad");
    assert_eq!(head.day, "");
    assert_eq!(header(i64::MIN).day, "");
}

#[test]
fn panel_toggle_and_sections() {
    let mut visible = Visible(true);
    assert_eq!(
        sections(visible),
        vec![
            Section::HideButton,
            Section::Profile,
            Section::Diagnostics,
            Section::ReadData,
            Section::Goals,
            Section::AddGoal,
        ]
    );
    visible.toggle();
    assert_eq!(visible, Visible(false));
    assert_eq!(sections(visible), vec![Section::HideButton]);
    visible.toggle();
    assert_eq!(visible, Visible(true));
}

#[test]
fn diagnostics_lines_pair_headings_with_counters() {
    let record = UserDiagnostics {
        total_study_time: 1,
        daily_average: 2,
        vocab_size: 3,
        chapters_read: 4,
        books_read: 5,
        videos_watched: 6,
        goals_completed: 7,
    };
    assert_eq!(
        lines(&record),
        vec![
            ("Total Study Time", 1),
            ("Daily Average", 2),
            ("Vocab Size", 3),
            ("Chapters Read", 4),
            ("Books Read", 5),
            ("Videos Watched", 6),
            ("Goals Completed", 7),
        ]
    );
}
