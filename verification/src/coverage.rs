//! The coverage summary of a run of the Rust test harness.
//!
//! The harness prints one result line for each test binary it runs. The
//! summary adds up the counts of all of them.

use crate::decimal::decimal_text;
use crate::decimal::decimal_value;
use crate::decimal::is_number;
use crate::decimal::Natural;
use vstd::prelude::*;
use vstd::string::StringExecFns;

verus! {

/// The regular expression that recognises one result line and captures its
/// two counts: the tests that passed and the tests that failed.
pub open spec fn marker_pattern() -> Seq<char> {
    "test result: (?:ok|FAILED)\\. ([0-9]+) passed; ([0-9]+) failed;"@
}

/// What is said when an output holds no result line.
pub open spec fn no_results() -> Seq<char> {
    "No test results"@
}

/// For each match of a pattern with two capture groups in a text, from left
/// to right and without overlap, the texts that the two groups captured, as
/// the `regex` crate finds them.
pub uninterp spec fn regex_captures(
    pattern: Seq<char>,
    haystack: Seq<char>,
) -> Seq<(Seq<char>, Seq<char>)>;

/// Whether both counts of every marker are decimal numerals.
pub open spec fn are_counts(markers: Seq<(Seq<char>, Seq<char>)>) -> bool {
    forall|i: int|
        0 <= i < markers.len() ==> is_number((#[trigger] markers[i]).0) && is_number(markers[i].1)
}

/// The sum of the first counts of all markers: the tests that passed.
pub open spec fn total_passed(markers: Seq<(Seq<char>, Seq<char>)>) -> nat
    decreases markers.len(),
{
    if markers.len() == 0 {
        0
    } else {
        total_passed(markers.drop_last()) + decimal_value(markers.last().0)
    }
}

/// The sum of the second counts of all markers: the tests that failed.
pub open spec fn total_failed(markers: Seq<(Seq<char>, Seq<char>)>) -> nat
    decreases markers.len(),
{
    if markers.len() == 0 {
        0
    } else {
        total_failed(markers.drop_last()) + decimal_value(markers.last().1)
    }
}

/// The summary of a run: the tests that passed out of all that ran, or the
/// notice that no result line was found.
pub open spec fn coverage_summary(markers: Seq<(Seq<char>, Seq<char>)>) -> Seq<char> {
    if markers.len() == 0 {
        no_results()
    } else {
        decimal_text(total_passed(markers)) + "/"@ + decimal_text(
            total_passed(markers) + total_failed(markers),
        )
    }
}

/// Calls `regex::Regex::new` on the pattern and `regex::Regex::captures_iter`
/// on the text, and hands out the texts of groups one and two of each match.
///
/// Trusted: the result is what the `regex` crate finds, in its order; and,
/// the pattern being the marker pattern, it compiles, both groups take part
/// in every match, and each captures one or more of the digits `0` to `9`.
#[verifier::external_body]
fn capture_counts(pattern: &str, haystack: &str) -> (found: Vec<(String, String)>)
    requires
        pattern@ == marker_pattern(),
    ensures
        found.deep_view() == regex_captures(pattern@, haystack@),
        are_counts(found.deep_view()),
{
    let matcher = regex::Regex::new(pattern).unwrap();
    matcher.captures_iter(haystack).map(|found| (found[1].to_owned(), found[2].to_owned())).collect()
}

/// Sums the counts of the markers found in an output and writes the summary.
pub fn summarize(markers: &Vec<(String, String)>) -> (summary: String)
    requires
        are_counts(markers.deep_view()),
    ensures
        summary@ == coverage_summary(markers.deep_view()),
{
    let ghost found = markers.deep_view();
    if markers.len() == 0 {
        return String::from_str("No test results");
    }
    let mut passed = Natural::zero();
    let mut failed = Natural::zero();
    let mut i: usize = 0;
    while i < markers.len()
        invariant
            i <= markers.len(),
            found == markers.deep_view(),
            are_counts(found),
            passed@ == total_passed(found.take(i as int)),
            failed@ == total_failed(found.take(i as int)),
        decreases markers.len() - i,
    {
        let marker = &markers[i];
        proof {
            assert(found[i as int] == (marker.0@, marker.1@));
            assert(found.take(i + 1).drop_last() =~= found.take(i as int));
            assert(found.take(i + 1).last() == found[i as int]);
        }
        passed = passed.plus(&Natural::parse(marker.0.as_str()));
        failed = failed.plus(&Natural::parse(marker.1.as_str()));
        i += 1;
    }
    assert(found.take(markers.len() as int) =~= found);
    let total = passed.plus(&failed);
    let mut summary = passed.to_text();
    summary.append("/");
    summary.append(total.to_text().as_str());
    summary
}

/// The coverage summary of the output of the Rust test harness.
pub fn parse_rust_coverage(command_output: &str) -> (summary: String)
    ensures
        summary@ == coverage_summary(regex_captures(marker_pattern(), command_output@)),
{
    let markers = capture_counts(
        "test result: (?:ok|FAILED)\\. ([0-9]+) passed; ([0-9]+) failed;",
        command_output,
    );
    summarize(&markers)
}

} // verus!
