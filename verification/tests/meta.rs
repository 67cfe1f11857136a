use sharpener::error::Error;
use sharpener::language::Language;
use sharpener::meta::meta_file_name;
use sharpener::meta::Meta;
use sharpener::meta::MetaRecord;
use sharpener::text::first_texts;

fn exercise(name: &str) -> Meta {
    Meta {
        name: name.to_string(),
        language: Language::Rust,
        difficulty: 3,
        topics: None,
        hints: None,
        hints_seen: None,
        submission_token: None,
    }
}

fn with_hints(hints: &[&str], seen: Option<usize>) -> Meta {
    let mut meta = exercise("hinted");
    meta.hints = Some(hints.iter().map(|hint| hint.to_string()).collect());
    meta.hints_seen = seen;
    meta
}

fn places(paths: &[&str]) -> Vec<String> {
    paths.iter().map(|path| path.to_string()).collect()
}

#[test]
fn metadata_file_name() {
    assert_eq!(meta_file_name(), ".meta.json");
}

#[test]
fn nearest_metadata_wins() {
    let candidates = places(&["/a/b/c/.meta.json", "/a/b/.meta.json", "/a/.meta.json"]);
    let found = Meta::get(candidates, |path: &String| {
        if path.as_str() == "/a/b/c/.meta.json" {
            Some(exercise("near"))
        } else {
            Some(exercise("far"))
        }
    });
    assert_eq!(found, Ok((exercise("near"), "/a/b/c/.meta.json".to_string())));
}

#[test]
fn metadata_above_is_found_past_missing_and_broken_files() {
    let candidates = places(&[
        "/a/b/c/.meta.json",
        "/a/b/.meta.json",
        "/a/.meta.json",
        "/.meta.json",
    ]);
    let found = Meta::get(candidates, |path: &String| {
        if path.as_str() == "/a/.meta.json" {
            Some(exercise("above"))
        } else {
            None
        }
    });
    assert_eq!(found, Ok((exercise("above"), "/a/.meta.json".to_string())));
}

#[test]
fn places_past_the_find_are_not_read() {
    let candidates = places(&["/a/b/.meta.json", "/a/.meta.json", "/.meta.json"]);
    let found = Meta::get(candidates, |path: &String| {
        if path.as_str() == "/a/b/.meta.json" {
            None
        } else if path.as_str() == "/a/.meta.json" {
            Some(exercise("middle"))
        } else {
            panic!("read past the metadata that was found")
        }
    });
    assert_eq!(found, Ok((exercise("middle"), "/a/.meta.json".to_string())));
}

#[test]
fn metadata_stored_nearest_is_found_as_stored() {
    let mut stored = with_hints(&["one", "two"], Some(1));
    stored.topics = Some(vec!["loops".to_string()]);
    stored.submission_token = Some("abc123".to_string());
    stored.language = Language::Other("haskell".to_string());
    let kept = stored.clone();
    let candidates = places(&["/a/b/.meta.json", "/a/.meta.json"]);
    let found = Meta::get(candidates, |path: &String| {
        if path.as_str() == "/a/b/.meta.json" {
            Some(kept.clone())
        } else {
            Some(exercise("above"))
        }
    });
    assert_eq!(found, Ok((stored, "/a/b/.meta.json".to_string())));
}

#[test]
fn absent_fields_stay_absent() {
    let candidates = places(&["/a/.meta.json"]);
    let (found, _) = Meta::get(candidates, |_: &String| Some(exercise("bare"))).unwrap();
    assert_eq!(found.topics, None);
    assert_eq!(found.hints, None);
    assert_eq!(found.hints_seen, None);
    assert_eq!(found.submission_token, None);
}

#[test]
fn no_metadata_anywhere_is_missing_meta() {
    let candidates = places(&["/a/b/.meta.json", "/a/.meta.json", "/.meta.json"]);
    let found = Meta::get(candidates, |_: &String| None);
    assert_eq!(found, Err(Error::MissingMeta));
}

#[test]
fn no_place_to_look_is_missing_meta() {
    let found = Meta::get(Vec::new(), |_: &String| Some(exercise("never")));
    assert_eq!(found, Err(Error::MissingMeta));
}

#[test]
fn exercise_without_hints_shows_nothing() {
    let mut meta = exercise("plain");
    assert_eq!(meta.reveal_hint(), None);
    assert_eq!(meta, exercise("plain"));
}

#[test]
fn first_hint_is_shown_first() {
    let mut meta = with_hints(&["one", "two"], None);
    assert_eq!(meta.reveal_hint(), Some(vec!["one".to_string()]));
    assert_eq!(meta.hints_seen, Some(1));
}

#[test]
fn each_request_shows_one_more_hint() {
    let mut meta = with_hints(&["one", "two", "three"], Some(0));
    assert_eq!(meta.reveal_hint(), Some(vec!["one".to_string()]));
    assert_eq!(
        meta.reveal_hint(),
        Some(vec!["one".to_string(), "two".to_string()])
    );
    assert_eq!(meta.hints_seen, Some(2));
}

#[test]
fn hints_stop_at_the_last() {
    let mut meta = with_hints(&["one", "two"], Some(2));
    assert_eq!(
        meta.reveal_hint(),
        Some(vec!["one".to_string(), "two".to_string()])
    );
    assert_eq!(meta.hints_seen, Some(2));
}

#[test]
fn a_count_past_the_hints_is_brought_back() {
    let mut meta = with_hints(&["one", "two"], Some(usize::MAX));
    assert_eq!(
        meta.reveal_hint(),
        Some(vec!["one".to_string(), "two".to_string()])
    );
    assert_eq!(meta.hints_seen, Some(2));
}

#[test]
fn empty_hint_list_shows_no_hint() {
    let mut meta = with_hints(&[], None);
    assert_eq!(meta.reveal_hint(), Some(Vec::new()));
    assert_eq!(meta.hints_seen, Some(0));
}

#[test]
fn hint_request_leaves_the_rest_alone() {
    let mut meta = with_hints(&["one"], None);
    meta.topics = Some(vec!["loops".to_string()]);
    meta.submission_token = Some("tok".to_string());
    let mut expected = meta.clone();
    expected.hints_seen = Some(1);
    meta.reveal_hint();
    assert_eq!(meta, expected);
}

#[test]
fn linking_sets_the_token_and_forgets_hints() {
    let mut meta = with_hints(&["one", "two"], Some(2));
    let mut expected = meta.clone();
    expected.submission_token = Some("abc123".to_string());
    expected.hints_seen = Some(0);
    meta.link("abc123".to_string());
    assert_eq!(meta, expected);
}

#[test]
fn linking_again_replaces_the_token() {
    let mut meta = exercise("again");
    meta.link("first".to_string());
    meta.link("second".to_string());
    assert_eq!(meta.submission_token, Some("second".to_string()));
    assert_eq!(meta.hints_seen, Some(0));
}

#[test]
fn record_names_the_language() {
    let mut meta = with_hints(&["one", "two"], Some(1));
    meta.topics = Some(vec!["loops".to_string(), "strings".to_string()]);
    meta.submission_token = Some("abc123".to_string());
    assert_eq!(
        meta.to_record(),
        MetaRecord {
            name: "hinted".to_string(),
            language: "rust".to_string(),
            difficulty: 3,
            topics: Some(vec!["loops".to_string(), "strings".to_string()]),
            hints: Some(vec!["one".to_string(), "two".to_string()]),
            hints_seen: Some(1),
            submission_token: Some("abc123".to_string()),
        }
    );
}

#[test]
fn record_is_read_as_metadata() {
    let record = MetaRecord {
        name: "demo".to_string(),
        language: "python".to_string(),
        difficulty: -2,
        topics: None,
        hints: Some(Vec::new()),
        hints_seen: None,
        submission_token: None,
    };
    let meta = Meta::from_record(record);
    assert_eq!(meta.name, "demo");
    assert_eq!(meta.language, Language::Python);
    assert_eq!(meta.difficulty, -2);
    assert_eq!(meta.topics, None);
    assert_eq!(meta.hints, Some(Vec::new()));
    assert_eq!(meta.hints_seen, None);
    assert_eq!(meta.submission_token, None);
}

#[test]
fn record_with_an_unknown_language_is_read() {
    let mut record = exercise("demo").to_record();
    record.language = "haskell".to_string();
    assert_eq!(
        Meta::from_record(record).language,
        Language::Other("haskell".to_string())
    );
}

#[test]
fn metadata_survives_writing_and_reading() {
    let mut full = with_hints(&["one", "two"], Some(2));
    full.topics = Some(vec!["loops".to_string()]);
    full.submission_token = Some("abc123".to_string());
    let mut unknown = exercise("unknown");
    unknown.language = Language::Other("haskell".to_string());
    let mut python = exercise("python");
    python.language = Language::Python;
    for meta in [exercise("bare"), full, unknown, python] {
        assert_eq!(Meta::from_record(meta.to_record()), meta);
    }
}

#[test]
fn absent_fields_are_absent_in_the_record() {
    let record = exercise("bare").to_record();
    assert_eq!(record.topics, None);
    assert_eq!(record.hints, None);
    assert_eq!(record.hints_seen, None);
    assert_eq!(record.submission_token, None);
    let read = Meta::from_record(record);
    assert_eq!(read, exercise("bare"));
}

#[test]
fn unknown_language_with_a_known_name_is_read_as_the_known_one() {
    let mut meta = exercise("odd");
    meta.language = Language::Other("rust".to_string());
    assert_eq!(Meta::from_record(meta.to_record()).language, Language::Rust);
}

#[test]
fn written_metadata_is_found_again() {
    let mut stored = with_hints(&["one"], Some(1));
    stored.submission_token = Some("abc123".to_string());
    let record = stored.to_record();
    let candidates = places(&["/work/demo/.meta.json", "/work/.meta.json", "/.meta.json"]);
    let found = Meta::get(candidates, |path: &String| {
        if path.as_str() == "/work/demo/.meta.json" {
            Some(Meta::from_record(record.clone()))
        } else {
            None
        }
    });
    assert_eq!(found, Ok((stored, "/work/demo/.meta.json".to_string())));
}

#[test]
fn first_texts_are_copied_in_order() {
    let texts = vec!["a".to_string(), "b".to_string(), "c".to_string()];
    assert_eq!(first_texts(&texts, 0), Vec::<String>::new());
    assert_eq!(first_texts(&texts, 2), vec!["a".to_string(), "b".to_string()]);
    assert_eq!(first_texts(&texts, 3), texts);
}
