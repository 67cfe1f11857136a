//! What the client knows of each programming language: how its tests are run
//! and where an exercise keeps its test and solution files.

use crate::coverage::coverage_summary;
use crate::coverage::marker_pattern;
use crate::coverage::parse_rust_coverage;
use crate::coverage::regex_captures;
use crate::text::same_text;
use vstd::prelude::*;
use vstd::string::StringExecFns;

verus! {

/// The language of an exercise: one of the languages the client supports, or
/// the raw name of one that it does not.
#[derive(Clone, Debug, PartialEq, Eq)]
pub enum Language {
    Python,
    Rust,
    Other(String),
}

/// How the tests of an exercise are started: a program and its arguments.
#[derive(Clone, Debug, PartialEq, Eq)]
pub struct TestCommand {
    pub program: String,
    pub args: Vec<String>,
}

/// The mathematical model of a [`Language`].
pub enum LanguageId {
    Python,
    Rust,
    Other(Seq<char>),
}

impl LanguageId {
    /// The name under which the language is written down.
    pub open spec fn name(self) -> Seq<char> {
        match self {
            LanguageId::Python => "python"@,
            LanguageId::Rust => "rust"@,
            LanguageId::Other(raw) => raw,
        }
    }

    /// Whether the client knows how to run and where to find the tests of
    /// exercises in this language.
    pub open spec fn is_supported(self) -> bool {
        self is Python || self is Rust
    }

    /// Whether the client can summarise the output of this language's tests.
    pub open spec fn has_coverage(self) -> bool {
        self is Rust
    }

    /// The program that runs the tests of a supported language.
    pub open spec fn test_program(self) -> Seq<char> {
        if self is Python {
            "pytest"@
        } else {
            "cargo"@
        }
    }

    /// The arguments that the test program is started with.
    pub open spec fn test_arguments(self) -> Seq<Seq<char>> {
        if self is Python {
            Seq::empty()
        } else {
            seq!["test"@]
        }
    }

    /// Where an exercise in a supported language keeps its tests, from the
    /// exercise's directory.
    pub open spec fn test_file(self) -> Seq<char> {
        if self is Python {
            "tests/tests.py"@
        } else {
            "tests/tests.rs"@
        }
    }

    /// Where an exercise in a supported language keeps its solution, from the
    /// exercise's directory.
    pub open spec fn solution_file(self) -> Seq<char> {
        if self is Python {
            "src/main.py"@
        } else {
            "src/lib.rs"@
        }
    }

    /// The language that a name stands for.
    pub open spec fn of_name(name: Seq<char>) -> LanguageId {
        if name == "python"@ {
            LanguageId::Python
        } else if name == "rust"@ {
            LanguageId::Rust
        } else {
            LanguageId::Other(name)
        }
    }
}

/// A name that is read as a language and written down again is the same
/// name, whether the client knows the language or not.
pub proof fn name_survives_reading(name: Seq<char>)
    ensures
        LanguageId::of_name(name).name() == name,
{
}

/// A language that is written down and read again is the same language,
/// unless it is an unknown language that goes by the name of a known one.
pub proof fn language_survives_writing(language: LanguageId)
    requires
        !(language matches LanguageId::Other(raw) && (raw == "python"@ || raw == "rust"@)),
    ensures
        LanguageId::of_name(language.name()) == language,
{
    reveal_strlit("python");
    reveal_strlit("rust");
    assert("python"@.len() != "rust"@.len());
}

impl View for Language {
    type V = LanguageId;

    open spec fn view(&self) -> LanguageId {
        match self {
            Language::Python => LanguageId::Python,
            Language::Rust => LanguageId::Rust,
            Language::Other(raw) => LanguageId::Other(raw@),
        }
    }
}

impl Language {
    /// The name under which the language is written down.
    pub fn as_str(&self) -> (name: &str)
        ensures
            name@ == self@.name(),
    {
        match self {
            Language::Python => "python",
            Language::Rust => "rust",
            Language::Other(raw) => raw.as_str(),
        }
    }

    /// The language that a name stands for: a name that the client does not
    /// know is kept as it is.
    pub fn from_name(name: String) -> (language: Language)
        ensures
            language@ == LanguageId::of_name(name@),
    {
        if same_text(name.as_str(), "python") {
            Language::Python
        } else if same_text(name.as_str(), "rust") {
            Language::Rust
        } else {
            Language::Other(name)
        }
    }

    /// Whether the client knows how to run and where to find the tests of
    /// exercises in this language.
    pub fn is_supported(&self) -> (supported: bool)
        ensures
            supported == self@.is_supported(),
    {
        match self {
            Language::Python => true,
            Language::Rust => true,
            Language::Other(_) => false,
        }
    }

    /// Whether the client can summarise the output of this language's tests.
    pub fn has_coverage(&self) -> (covered: bool)
        ensures
            covered == self@.has_coverage(),
    {
        match self {
            Language::Rust => true,
            _ => false,
        }
    }

    /// The command that runs the tests of an exercise, to be started in the
    /// exercise's directory.
    pub fn test_command(&self) -> (command: TestCommand)
        requires
            self@.is_supported(),
        ensures
            command.program@ == self@.test_program(),
            command.args.deep_view() == self@.test_arguments(),
    {
        let mut args: Vec<String> = Vec::new();
        match self {
            Language::Python => {
                assert(args.deep_view() =~= Seq::<Seq<char>>::empty());
                TestCommand { program: String::from_str("pytest"), args }
            },
            _ => {
                args.push(String::from_str("test"));
                assert(args.deep_view() =~= seq!["test"@]);
                TestCommand { program: String::from_str("cargo"), args }
            },
        }
    }

    /// The coverage summary of what the language's tests printed.
    pub fn parse_test_coverage(&self, command_output: &str) -> (summary: String)
        requires
            self@.has_coverage(),
        ensures
            summary@ == coverage_summary(regex_captures(marker_pattern(), command_output@)),
    {
        parse_rust_coverage(command_output)
    }

    /// Where the exercise keeps its tests, from the exercise's directory.
    pub fn test_file_path(&self) -> (path: &'static str)
        requires
            self@.is_supported(),
        ensures
            path@ == self@.test_file(),
    {
        match self {
            Language::Python => "tests/tests.py",
            _ => "tests/tests.rs",
        }
    }

    /// Where the exercise keeps its solution, from the exercise's directory.
    pub fn solution_file_path(&self) -> (path: &'static str)
        requires
            self@.is_supported(),
        ensures
            path@ == self@.solution_file(),
    {
        match self {
            Language::Python => "src/main.py",
            _ => "src/lib.rs",
        }
    }
}

} // verus!
