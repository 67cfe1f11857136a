//! The submissions that the server keeps, and the exchanges with the server
//! about them: what is asked of it, and what its answers mean.
//!
//! The client never changes a submission by itself. Each command asks the
//! server and goes by what it answers.

use crate::coverage::coverage_summary;
use crate::coverage::marker_pattern;
use crate::coverage::regex_captures;
use crate::error::Error;
use crate::language::Language;
use crate::language::TestCommand;
use crate::meta::Meta;
use crate::text::same_text;
use crate::text::starts_with;
use crate::text::text_of_bytes;
use vstd::prelude::*;
use vstd::string::StrSliceExecFns;
use vstd::string::StringExecFns;
use vstd::utf8::decode_utf8;
use vstd::utf8::valid_utf8;

verus! {

/// The status that every answer must carry to count as a success.
pub const STATUS_OK: u16 = 200;

/// Where a submission stands on the server.
#[derive(Copy, Clone, Debug, PartialEq, Eq, Structural)]
pub enum SubmissionStatus {
    Skipped,
    Submitted,
    Pending,
}

/// A submission as the server describes it.
#[derive(Clone, Debug, PartialEq, Eq)]
pub struct Submission {
    pub exercise_name: String,
    pub exercise_language: Language,
    pub download_url: String,
    pub submission_token: String,
    pub attempts: i32,
    pub submission_status: SubmissionStatus,
}

/// The server's answer to giving an exercise up: whether it agreed, and the
/// submission that replaces the one given up.
#[derive(Clone, Debug, PartialEq, Eq)]
pub struct ForfeitSubmission {
    pub success: bool,
    pub data: Option<Submission>,
}

/// The two ways of asking the server.
#[derive(Copy, Clone, Debug, PartialEq, Eq, Structural)]
pub enum Method {
    Get,
    Post,
}

/// The fields of the form that hands a solution in.
#[derive(Clone, Debug, PartialEq, Eq)]
pub struct Form {
    /// What the tests printed.
    pub test_output: String,
    /// The coverage summary of what the tests printed.
    pub test_coverage: String,
    /// The fingerprint of the test file.
    pub test_checksum: String,
    /// Where the solution file lies, from the exercise's directory. The file
    /// itself is sent.
    pub solution: String,
}

/// What is asked of the server.
#[derive(Clone, Debug, PartialEq, Eq)]
pub struct Request {
    pub method: Method,
    /// Where the request goes, from the root of the server's interface.
    pub path: String,
    /// The form that is sent along, if any.
    pub form: Option<Form>,
}

/// What the server answered: the status, and the content as far as it could
/// be read as a `T`, else the reason why it could not.
#[derive(Debug, PartialEq, Eq)]
pub struct Response<T> {
    pub status: u16,
    pub body: Result<T, String>,
}

/// What a submission needs before anything is sent: the token it goes by,
/// the command that runs the tests, and the files that take part.
#[derive(Clone, Debug, PartialEq, Eq)]
pub struct SubmitPlan {
    pub token: String,
    pub command: TestCommand,
    /// Where the test file lies, from the exercise's directory.
    pub test_file: String,
    /// Where the solution file lies, from the exercise's directory.
    pub solution_file: String,
}

/// What the tests of an exercise said.
#[derive(Clone, Debug, PartialEq, Eq)]
pub struct TestReport {
    /// What the tests printed.
    pub output: String,
    /// The coverage summary of what they printed.
    pub coverage: String,
}

/// The status that a name stands for, if it names one.
pub open spec fn status_of_name(name: Seq<char>) -> Option<SubmissionStatus> {
    if name == "skipped"@ {
        Some(SubmissionStatus::Skipped)
    } else if name == "submitted"@ {
        Some(SubmissionStatus::Submitted)
    } else if name == "pending"@ {
        Some(SubmissionStatus::Pending)
    } else {
        None
    }
}

/// What an exchange with the server comes to. A request that failed on the
/// way is a failed request; an answer with another status than 200 is an
/// invalid answer, whatever else it holds; a content that could not be read
/// is a parse failure; anything else is the content.
pub open spec fn outcome<T>(reply: Result<Response<T>, String>) -> Result<T, Error> {
    match reply {
        Err(source) => Err(Error::ServerRequest { source }),
        Ok(response) => if response.status != STATUS_OK {
            Err(Error::InvalidAPIResponse { expected: STATUS_OK, received: response.status })
        } else {
            match response.body {
                Err(source) => Err(Error::ParseSubmissionResponse { source }),
                Ok(content) => Ok(content),
            }
        },
    }
}

/// The test that a submission has the status asked for.
pub open spec fn has_status(wanted: SubmissionStatus) -> spec_fn(Submission) -> bool {
    |record: Submission| record.submission_status == wanted
}

/// The submissions that a filter lets through: all of them without a filter,
/// else those with the status asked for, in the order they came in.
pub open spec fn selected(
    records: Seq<Submission>,
    status: Option<SubmissionStatus>,
) -> Seq<Submission> {
    match status {
        None => records,
        Some(wanted) => records.filter(has_status(wanted)),
    }
}

/// What the answer to giving an exercise up comes to: the replacement, where
/// the server agreed and named one.
pub open spec fn forfeit_outcome(
    reply: Result<Response<ForfeitSubmission>, String>,
) -> Result<Submission, Error> {
    match outcome(reply) {
        Err(error) => Err(error),
        Ok(answer) => match answer.data {
            Some(replacement) => if answer.success {
                Ok(replacement)
            } else {
                Err(Error::InvalidForfeit)
            },
            None => Err(Error::InvalidForfeit),
        },
    }
}

/// Where an archive is fetched from: a reference into the object storage,
/// which begins with `gs://`, is fetched from the storage's HTTPS address;
/// any other address is taken as it is.
pub open spec fn archive_location(url: Seq<char>) -> Seq<char> {
    if "gs://"@.is_prefix_of(url) {
        "https://storage.googleapis.com/"@ + url.skip("gs://"@.len() as int)
    } else {
        url
    }
}

/// Where the requests about one submission go.
pub open spec fn submission_path(token: Seq<char>) -> Seq<char> {
    "submissions/"@ + token
}

/// Where the request to give a submission's exercise up goes.
pub open spec fn forfeit_path(token: Seq<char>) -> Seq<char> {
    submission_path(token) + "/forfeit"@
}

/// Whether an answer with this status counts as a success. The content of
/// an answer that does not is never looked at, so it need not be read.
pub fn is_accepted(status: u16) -> (accepted: bool)
    ensures
        accepted == (status == STATUS_OK),
{
    status == STATUS_OK
}

/// What an exchange with the server comes to; see [`outcome`].
pub fn accept<T>(reply: Result<Response<T>, String>) -> (result: Result<T, Error>)
    ensures
        result == outcome(reply),
{
    match reply {
        Err(source) => Err(Error::ServerRequest { source }),
        Ok(response) => {
            if !is_accepted(response.status) {
                Err(Error::InvalidAPIResponse { expected: STATUS_OK, received: response.status })
            } else {
                match response.body {
                    Err(source) => Err(Error::ParseSubmissionResponse { source }),
                    Ok(content) => Ok(content),
                }
            }
        },
    }
}

impl SubmissionStatus {
    /// The status that a name stands for, if it names one.
    pub fn from_name(name: &str) -> (status: Option<SubmissionStatus>)
        ensures
            status == status_of_name(name@),
    {
        if same_text(name, "skipped") {
            Some(SubmissionStatus::Skipped)
        } else if same_text(name, "submitted") {
            Some(SubmissionStatus::Submitted)
        } else if same_text(name, "pending") {
            Some(SubmissionStatus::Pending)
        } else {
            None
        }
    }
}

impl Submission {
    /// The request that asks for the user's submissions.
    pub fn list_request() -> (request: Request)
        ensures
            request.method == Method::Get,
            request.path@ == "submissions"@,
            request.form is None,
    {
        Request { method: Method::Get, path: String::from_str("submissions"), form: None }
    }

    /// What the answer to [`Submission::list_request`] comes to: the
    /// submissions that the filter lets through, in the server's order.
    pub fn list(
        reply: Result<Response<Vec<Submission>>, String>,
        status: Option<SubmissionStatus>,
    ) -> (found: Result<Vec<Submission>, Error>)
        ensures
            match outcome(reply) {
                Ok(records) => found matches Ok(kept) && kept@ == selected(records@, status),
                Err(error) => found == Err::<Vec<Submission>, Error>(error),
            },
    {
        let records = match accept(reply) {
            Ok(records) => records,
            Err(error) => {
                return Err(error);
            },
        };
        let wanted = match status {
            Some(wanted) => wanted,
            None => {
                return Ok(records);
            },
        };
        let ghost all = records@;
        let mut kept: Vec<Submission> = Vec::new();
        proof {
            reveal(Seq::filter);
            assert(all.take(0) =~= Seq::<Submission>::empty());
        }
        for record in iter: records
            invariant
                iter.seq() == all,
                kept@ == all.take(iter.index() as int).filter(has_status(wanted)),
        {
            proof {
                reveal(Seq::filter);
                let n = iter.index() as int;
                assert(all.take(n + 1).drop_last() =~= all.take(n));
                assert(all.take(n + 1).last() == record);
                assert(all.take(n + 1).filter(has_status(wanted)) == if has_status(wanted)(record) {
                    all.take(n).filter(has_status(wanted)).push(record)
                } else {
                    all.take(n).filter(has_status(wanted))
                });
            }
            if record.submission_status == wanted {
                kept.push(record);
            }
        }
        assert(all.take(all.len() as int) =~= all);
        Ok(kept)
    }

    /// The request that asks for the submission with the given token.
    pub fn get_request(token: &str) -> (request: Request)
        ensures
            request.method == Method::Get,
            request.path@ == submission_path(token@),
            request.form is None,
    {
        let mut path = String::from_str("submissions/");
        path.append(token);
        Request { method: Method::Get, path, form: None }
    }

    /// What the answer to [`Submission::get_request`] comes to.
    pub fn get(reply: Result<Response<Submission>, String>) -> (found: Result<Submission, Error>)
        ensures
            found == outcome(reply),
    {
        accept(reply)
    }

    /// Where the archive of the submission's exercise is fetched from.
    pub fn archive_url(&self) -> (url: String)
        ensures
            url@ == archive_location(self.download_url@),
    {
        let given = self.download_url.as_str();
        if starts_with(given, "gs://") {
            let from = "gs://".unicode_len();
            let rest = given.substring_char(from, given.unicode_len());
            let mut url = String::from_str("https://storage.googleapis.com/");
            url.append(rest);
            assert(given@.subrange(from as int, given@.len() as int) =~= given@.skip(from as int));
            url
        } else {
            self.download_url.clone()
        }
    }

    /// Links freshly unpacked metadata to this submission.
    pub fn link(&self, meta: &mut Meta)
        ensures
            final(meta)@ == old(meta)@.linked_to(self.submission_token@),
    {
        meta.link(self.submission_token.clone());
    }

    /// The request that gives up the exercise whose metadata is given. An
    /// exercise that is not linked to a submission cannot be given up.
    pub fn forfeit_request(meta: &Meta) -> (request: Result<Request, Error>)
        ensures
            match meta@.submission_token {
                None => request == Err::<Request, Error>(Error::MissingMeta),
                Some(token) => request matches Ok(asked) && asked.method == Method::Post
                    && asked.path@ == forfeit_path(token) && asked.form is None,
            },
    {
        match &meta.submission_token {
            None => Err(Error::MissingMeta),
            Some(token) => {
                let mut path = String::from_str("submissions/");
                path.append(token.as_str());
                path.append("/forfeit");
                Ok(Request { method: Method::Post, path, form: None })
            },
        }
    }

    /// What the answer to [`Submission::forfeit_request`] comes to: the
    /// submission that replaces the one given up.
    pub fn forfeit(
        reply: Result<Response<ForfeitSubmission>, String>,
    ) -> (replacement: Result<Submission, Error>)
        ensures
            replacement == forfeit_outcome(reply),
    {
        match accept(reply) {
            Err(error) => Err(error),
            Ok(answer) => match answer.data {
                Some(replacement) => {
                    if answer.success {
                        Ok(replacement)
                    } else {
                        Err(Error::InvalidForfeit)
                    }
                },
                None => Err(Error::InvalidForfeit),
            },
        }
    }

    /// What handing in the exercise whose metadata is given needs. Nothing
    /// is run or sent for an exercise that is not linked to a submission, or
    /// whose tests the client does not know how to run; of the two, the
    /// missing link is told first.
    pub fn submit_plan(meta: &Meta) -> (plan: Result<SubmitPlan, Error>)
        ensures
            match meta@.submission_token {
                None => plan == Err::<SubmitPlan, Error>(Error::MissingMeta),
                Some(token) => if meta@.language.is_supported() {
                    plan matches Ok(steps) && steps.token@ == token && steps.command.program@
                        == meta@.language.test_program() && steps.command.args.deep_view()
                        == meta@.language.test_arguments() && steps.test_file@
                        == meta@.language.test_file() && steps.solution_file@
                        == meta@.language.solution_file()
                } else {
                    plan matches Err(Error::UnsupportedLanguage { language }) && language@
                        == meta@.language.name()
                },
            },
    {
        let token = match &meta.submission_token {
            None => {
                return Err(Error::MissingMeta);
            },
            Some(token) => token.clone(),
        };
        if !meta.language.is_supported() {
            return Err(
                Error::UnsupportedLanguage { language: String::from_str(meta.language.as_str()) },
            );
        }
        Ok(
            SubmitPlan {
                token,
                command: meta.language.test_command(),
                test_file: String::from_str(meta.language.test_file_path()),
                solution_file: String::from_str(meta.language.solution_file_path()),
            },
        )
    }

    /// What the tests of an exercise said, from what they printed: the text
    /// itself and its coverage summary. What was printed is decoded first,
    /// and must be UTF-8; only then is the language asked for, which must be
    /// one whose output the client can summarise.
    pub fn test_report(
        language: &Language,
        test_output: Vec<u8>,
    ) -> (report: Result<TestReport, Error>)
        ensures
            if !valid_utf8(test_output@) {
                report == Err::<TestReport, Error>(Error::InvalidTestOutput)
            } else if !language@.has_coverage() {
                report matches Err(Error::UnsupportedLanguage { language: name }) && name@
                    == language@.name()
            } else {
                report matches Ok(said) && said.output@ == decode_utf8(test_output@)
                    && said.coverage@ == coverage_summary(
                    regex_captures(marker_pattern(), decode_utf8(test_output@)),
                )
            },
    {
        let output = match text_of_bytes(test_output) {
            None => {
                return Err(Error::InvalidTestOutput);
            },
            Some(output) => output,
        };
        if !language.has_coverage() {
            return Err(Error::UnsupportedLanguage { language: String::from_str(language.as_str()) });
        }
        let coverage = language.parse_test_coverage(output.as_str());
        Ok(TestReport { output, coverage })
    }

    /// The request that hands an exercise in: what its tests said, the
    /// fingerprint of its test file, and its solution file go to the
    /// submission that the plan names.
    pub fn submit_request(
        plan: SubmitPlan,
        report: TestReport,
        test_checksum: String,
    ) -> (request: Request)
        ensures
            request.method == Method::Post,
            request.path@ == submission_path(plan.token@),
            request.form == Some(
                Form {
                    test_output: report.output,
                    test_coverage: report.coverage,
                    test_checksum,
                    solution: plan.solution_file,
                },
            ),
    {
        let mut path = String::from_str("submissions/");
        path.append(plan.token.as_str());
        let form = Form {
            test_output: report.output,
            test_coverage: report.coverage,
            test_checksum,
            solution: plan.solution_file,
        };
        Request { method: Method::Post, path, form: Some(form) }
    }

    /// What the answer to [`Submission::submit_request`] comes to: nothing
    /// but the status counts.
    pub fn submit(reply: Result<u16, String>) -> (done: Result<(), Error>)
        ensures
            done == match reply {
                Err(source) => Err::<(), Error>(Error::ServerRequest { source }),
                Ok(status) => if status != STATUS_OK {
                    Err(Error::InvalidAPIResponse { expected: STATUS_OK, received: status })
                } else {
                    Ok(())
                },
            },
    {
        match reply {
            Err(source) => Err(Error::ServerRequest { source }),
            Ok(status) => {
                if !is_accepted(status) {
                    Err(Error::InvalidAPIResponse { expected: STATUS_OK, received: status })
                } else {
                    Ok(())
                }
            },
        }
    }
}

} // verus!
