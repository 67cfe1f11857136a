use sharpener::language::Language;
use sharpener::text::same_text;
use sharpener::text::starts_with;

#[test]
fn texts_are_compared_by_their_characters() {
    assert!(same_text("", ""));
    assert!(same_text("naïve", "naïve"));
    assert!(!same_text("rust", "rusty"));
    assert!(!same_text("rust", "ruse"));
    assert!(!same_text("rust", ""));
}

#[test]
fn prefixes_are_found() {
    assert!(starts_with("gs://bucket", "gs://"));
    assert!(starts_with("gs://", "gs://"));
    assert!(starts_with("anything", ""));
    assert!(starts_with("übung", "üb"));
    assert!(!starts_with("gs:/", "gs://"));
    assert!(!starts_with("", "gs://"));
    assert!(!starts_with("hs://bucket", "gs://"));
}

#[test]
fn known_languages_have_fixed_names() {
    assert_eq!(Language::Python.as_str(), "python");
    assert_eq!(Language::Rust.as_str(), "rust");
}

#[test]
fn other_language_keeps_its_raw_name() {
    assert_eq!(Language::Other("haskell".to_string()).as_str(), "haskell");
    assert_eq!(Language::Other(String::new()).as_str(), "");
}

#[test]
fn names_are_read_back_as_languages() {
    assert_eq!(Language::from_name("python".to_string()), Language::Python);
    assert_eq!(Language::from_name("rust".to_string()), Language::Rust);
    assert_eq!(
        Language::from_name("haskell".to_string()),
        Language::Other("haskell".to_string())
    );
}

#[test]
fn names_are_case_sensitive() {
    assert_eq!(
        Language::from_name("Rust".to_string()),
        Language::Other("Rust".to_string())
    );
    assert_eq!(
        Language::from_name("rust ".to_string()),
        Language::Other("rust ".to_string())
    );
}

#[test]
fn name_round_trips_through_language() {
    for name in ["python", "rust", "go", ""] {
        assert_eq!(Language::from_name(name.to_string()).as_str(), name);
    }
}

#[test]
fn only_python_and_rust_are_supported() {
    assert!(Language::Python.is_supported());
    assert!(Language::Rust.is_supported());
    assert!(!Language::Other("go".to_string()).is_supported());
}

#[test]
fn only_rust_has_coverage() {
    assert!(Language::Rust.has_coverage());
    assert!(!Language::Python.has_coverage());
    assert!(!Language::Other("rust2".to_string()).has_coverage());
}

#[test]
fn python_tests_run_with_pytest() {
    let command = Language::Python.test_command();
    assert_eq!(command.program, "pytest");
    assert!(command.args.is_empty());
}

#[test]
fn rust_tests_run_with_cargo_test() {
    let command = Language::Rust.test_command();
    assert_eq!(command.program, "cargo");
    assert_eq!(command.args, vec!["test".to_string()]);
}

#[test]
fn test_files_lie_under_tests() {
    assert_eq!(Language::Rust.test_file_path(), "tests/tests.rs");
    assert_eq!(Language::Python.test_file_path(), "tests/tests.py");
}

#[test]
fn solution_files_lie_under_src() {
    assert_eq!(Language::Rust.solution_file_path(), "src/lib.rs");
    assert_eq!(Language::Python.solution_file_path(), "src/main.py");
}

#[test]
fn rust_coverage_adds_up_all_result_lines() {
    let output = "running 4 tests\n\
                  test result: ok. 3 passed; 1 failed; 0 ignored\n\
                  running 2 tests\n\
                  test result: FAILED. 0 passed; 2 failed; 0 ignored\n";
    assert_eq!(Language::Rust.parse_test_coverage(output), "3/6");
}

#[test]
fn rust_coverage_without_result_line() {
    assert_eq!(
        Language::Rust.parse_test_coverage("error: could not compile"),
        "No test results"
    );
    assert_eq!(Language::Rust.parse_test_coverage(""), "No test results");
}
