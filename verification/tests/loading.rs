use nazad::diagnostics::{read_counter, read_diagnostics, LoadError, UserDiagnostics};
use nazad::user::UserProfile;

const VALID: &str = "{\"total_study_time\":10,\"daily_average\":1,\"vocab_size\":50,\"chapters_read\":2,\"books_read\":1,\"videos_watched\":3,\"goals_completed\":0}";

fn expected() -> UserDiagnostics {
    UserDiagnostics {
        total_study_time: 10,
        daily_average: 1,
        vocab_size: 50,
        chapters_read: 2,
        books_read: 1,
        videos_watched: 3,
        goals_completed: 0,
    }
}

fn load(profile: &mut UserProfile, text: &str) -> Result<(), LoadError> {
    profile.generate_diagnostic_data(Ok(String::from(text)))
}

#[test]
fn valid_document_yields_its_seven_values() {
    let mut profile = UserProfile::new();
    assert_eq!(load(&mut profile, VALID), Ok(()));
    assert_eq!(profile.diagnostics(), expected());
}

#[test]
fn load_replaces_the_whole_record_and_nothing_else() {
    let mut profile = UserProfile::new();
    profile.with_data("a.png", "Ann");
    profile.add_goal();
    assert_eq!(profile.mark_goal_as_completed(0), Ok(()));
    profile.test();
    assert_eq!(profile.diagnostics().goals_completed, 1);
    let goals = profile.goals().clone();
    assert_eq!(load(&mut profile, VALID), Ok(()));
    assert_eq!(profile.diagnostics(), expected());
    assert_eq!(profile.goals(), &goals);
    assert_eq!(profile.profile().picture_path, "a.png");
    assert!(profile.visible_at_startup());
}

#[test]
fn missing_field_fails_and_keeps_the_prior_record() {
    let mut profile = UserProfile::new();
    assert_eq!(load(&mut profile, VALID), Ok(()));
    let before = profile.clone();
    let missing = "{\"total_study_time\":99,\"daily_average\":1,\"vocab_size\":50,\"chapters_read\":2,\"books_read\":1,\"videos_watched\":3}";
    assert_eq!(load(&mut profile, missing), Err(LoadError::Parse));
    assert_eq!(profile, before);
    assert_eq!(profile.diagnostics(), expected());
}

#[test]
fn each_field_is_required() {
    let names = [
        "total_study_time",
        "daily_average",
        "vocab_size",
        "chapters_read",
        "books_read",
        "videos_watched",
        "goals_completed",
    ];
    for left_out in names {
        let members: Vec<String> = names
            .iter()
            .filter(|name| **name != left_out)
            .map(|name| format!("\"{}\":4", name))
            .collect();
        let text = format!("{{{}}}", members.join(","));
        assert_eq!(
            UserProfile::deserialize_diagnostics(&text),
            Err(LoadError::Parse),
            "without {}",
            left_out
        );
    }
}

#[test]
fn mistyped_field_fails() {
    let mut profile = UserProfile::new();
    for bad in ["\"3\"", "-3", "3.5", "3.0", "null", "true", "[3]", "{}", "18446744073709551616"] {
        let text = VALID.replace("\"videos_watched\":3", &format!("\"videos_watched\":{}", bad));
        assert_eq!(load(&mut profile, &text), Err(LoadError::Parse), "for {}", bad);
        assert_eq!(profile.diagnostics(), UserDiagnostics::empty());
    }
}

#[test]
fn text_that_is_not_json_fails() {
    let mut profile = UserProfile::new();
    for bad in ["", "   ", "{", "not json", "{\"total_study_time\":10,}", "[1,2,3,4,5,6,7]", "7", "null"] {
        assert_eq!(load(&mut profile, bad), Err(LoadError::Parse), "for {:?}", bad);
    }
    let trailing = format!("{} x", VALID);
    assert_eq!(load(&mut profile, &trailing), Err(LoadError::Parse));
    assert_eq!(profile.diagnostics(), UserDiagnostics::empty());
}

#[test]
fn unknown_fields_and_layout_do_not_matter() {
    let text = " {\n \"goals_completed\": 7, \"extra\": [1, {\"a\": null}], \"videos_watched\": 6,\n \"books_read\": 5, \"chapters_read\": 4, \"vocab_size\": 3,\n \"daily_average\": 2, \"note\": \"hi\", \"total_study_time\": 1 }\n";
    let record = UserProfile::deserialize_diagnostics(&String::from(text));
    assert_eq!(
        record,
        Ok(UserDiagnostics {
            total_study_time: 1,
            daily_average: 2,
            vocab_size: 3,
            chapters_read: 4,
            books_read: 5,
            videos_watched: 6,
            goals_completed: 7,
        })
    );
}

#[test]
fn largest_counter_is_read() {
    let text = VALID.replace("\"vocab_size\":50", &format!("\"vocab_size\":{}", usize::MAX));
    let record = UserProfile::deserialize_diagnostics(&text).unwrap();
    assert_eq!(record.vocab_size, usize::MAX);
}

#[test]
fn unreadable_file_fails_and_keeps_the_prior_record() {
    let mut profile = UserProfile::new();
    assert_eq!(load(&mut profile, VALID), Ok(()));
    let failure = std::io::Error::from(std::io::ErrorKind::NotFound);
    assert_eq!(profile.generate_diagnostic_data(Err(failure)), Err(LoadError::Io));
    assert_eq!(profile.diagnostics(), expected());
}

#[test]
fn process_diagnostics_changes_nothing() {
    assert_eq!(UserProfile::process_diagnostics(expected()), expected());
}

#[test]
fn assemble_needs_all_seven() {
    assert_eq!(
        UserDiagnostics::assemble(Some(10), Some(1), Some(50), Some(2), Some(1), Some(3), Some(0)),
        Some(expected())
    );
    assert_eq!(
        UserDiagnostics::assemble(Some(10), Some(1), Some(50), None, Some(1), Some(3), Some(0)),
        None
    );
    assert_eq!(UserDiagnostics::assemble(None, None, None, None, None, None, None), None);
}

#[test]
fn read_counter_tells_members_apart() {
    let mut members = serde_json::Map::new();
    members.insert(String::from("a"), serde_json::Value::from(5u64));
    members.insert(String::from("b"), serde_json::Value::from(-5i64));
    members.insert(String::from("c"), serde_json::Value::from("5"));
    let document = serde_json::Value::Object(members);
    assert_eq!(read_counter(&document, "a"), Some(5));
    assert_eq!(read_counter(&document, "b"), None);
    assert_eq!(read_counter(&document, "c"), None);
    assert_eq!(read_counter(&document, "d"), None);
    assert_eq!(read_counter(&serde_json::Value::from(5u64), "a"), None);
    assert_eq!(read_diagnostics(&document), Err(LoadError::Parse));
}
