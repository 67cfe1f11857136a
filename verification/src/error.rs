//! The ways in which a command of the client can fail.

use vstd::prelude::*;

verus! {

/// Why a command failed. Where the failure came from outside the client, the
/// text of the outside error is kept in `source`.
#[derive(Clone, Debug, PartialEq, Eq)]
pub enum Error {
    /// The configuration file could not be written.
    ConfigWrite { source: String },
    /// The configuration file could not be opened.
    OpenConfigFile { filename: String, source: String },
    /// The configuration file does not hold a configuration.
    ConfigParsing { source: String },
    /// The user's token cannot be sent in a request header.
    InvalidToken,
    /// The HTTP client could not be set up.
    ClientBuild { source: String },
    /// A request did not reach the server, or its answer did not arrive.
    ServerRequest { source: String },
    /// The server's answer is not what the request calls for.
    ParseSubmissionResponse { source: String },
    /// The server answered with another status than the one expected.
    InvalidAPIResponse { expected: u16, received: u16 },
    /// The exercise's archive could not be fetched.
    ExerciseDownload { source: String },
    /// The exercise's archive could not be unpacked.
    UnpackTar { source: String },
    /// The exercise's metadata file could not be opened.
    OpenMetaFile { source: String },
    /// The exercise's metadata file does not hold metadata.
    ParseMetaFile { source: String },
    /// The exercise's metadata file could not be written.
    WriteMetaFile { source: String },
    /// Another operation on files failed.
    IOError { source: String },
    /// No metadata was found in the working directory or above it, or the
    /// metadata found is not linked to a submission.
    MissingMeta,
    /// The test command could not be run.
    TestCommand { source: String },
    /// What the test command printed is not UTF-8 text.
    InvalidTestOutput,
    /// A file of the exercise that a submission needs could not be opened.
    OpenSubmissionFile { filename: String, source: String },
    /// A file of the exercise that a submission needs could not be read.
    ReadSubmissionFile { filename: String, source: String },
    /// The exercise is in a language for which the client cannot do what the
    /// command needs.
    UnsupportedLanguage { language: String },
    /// The server has no exercise to replace the one given up.
    InvalidForfeit,
}

} // verus!
