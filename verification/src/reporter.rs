//! Renders the results of the validators as text for a person to read.

use vstd::prelude::*;
use vstd::string::*;

use crate::text::{decimal, push_decimal};
use crate::{all_pass, reports_of, Finding, Report, ValidationResult, ValidationStatus};

verus! {

/// The sign shown for a report: a check mark where it passed, a cross where
/// it failed.
pub open spec fn status_mark(report: Report) -> Seq<char> {
    if report.status == ValidationStatus::Pass {
        "✓"@
    } else {
        "✗"@
    }
}

/// The word shown for a report.
pub open spec fn status_word(report: Report) -> Seq<char> {
    if report.status == ValidationStatus::Pass {
        "Pass"@
    } else {
        "Fail"@
    }
}

/// The line that says how validator `i` of the list went:
/// `[<i + 1>/<count>] <name>... <mark> <word>`.
pub open spec fn progress_line(reports: Seq<Report>, i: int) -> Seq<char> {
    "["@ + decimal((i + 1) as nat) + "/"@ + decimal(reports.len()) + "] "@ + reports[i].name
        + "... "@ + status_mark(reports[i]) + " "@ + status_word(reports[i]) + "\n"@
}

/// The progress lines of the first `n` validators.
pub open spec fn progress_lines(reports: Seq<Report>, n: nat) -> Seq<char>
    decreases n,
{
    if n == 0 {
        Seq::empty()
    } else {
        progress_lines(reports, (n - 1) as nat) + progress_line(reports, n - 1)
    }
}

/// What a verbose report starts with: the file, then one progress line for
/// each validator, then an empty line.
pub open spec fn preamble(reports: Seq<Report>, file_path: Seq<char>) -> Seq<char> {
    "Checking file: "@ + file_path + "\n\n"@ + "Running validators...\n"@ + progress_lines(
        reports,
        reports.len(),
    ) + "\n"@
}

/// The first `n` findings, one indented line each.
pub open spec fn finding_lines(findings: Seq<Finding>, n: nat) -> Seq<char>
    decreases n,
{
    if n == 0 {
        Seq::empty()
    } else {
        finding_lines(findings, (n - 1) as nat) + "  "@ + findings[n - 1].rendered() + "\n"@
    }
}

/// The line that sums up one report: `<name>: <mark> <word>`, and the number
/// of errors where there are any.
pub open spec fn summary_line(report: Report) -> Seq<char> {
    let count = if report.findings.len() > 0 {
        " ("@ + decimal(report.findings.len()) + " errors)"@
    } else {
        Seq::empty()
    };
    report.name + ": "@ + status_mark(report) + " "@ + status_word(report) + count + "\n"@
}

/// One report in full: its summary line, then its findings.
pub open spec fn breakdown(report: Report) -> Seq<char> {
    summary_line(report) + finding_lines(report.findings, report.findings.len())
}

/// The first `n` reports in full.
pub open spec fn breakdowns(reports: Seq<Report>, n: nat) -> Seq<char>
    decreases n,
{
    if n == 0 {
        Seq::empty()
    } else {
        breakdowns(reports, (n - 1) as nat) + breakdown(reports[n - 1])
    }
}

/// What is said of the file as a whole: one line where every validator
/// passed, else the failure and every report in full.
pub open spec fn verdict(reports: Seq<Report>, file_path: Seq<char>) -> Seq<char> {
    if all_pass(reports) {
        "✓ File validation successful: "@ + file_path + "\n"@
    } else {
        "✗ File validation failed: "@ + file_path + "\n\n"@ + breakdowns(reports, reports.len())
    }
}

/// The report on one file.
pub open spec fn report_text(
    reports: Seq<Report>,
    file_path: Seq<char>,
    verbose: bool,
) -> Seq<char> {
    if verbose {
        preamble(reports, file_path) + verdict(reports, file_path)
    } else {
        verdict(reports, file_path)
    }
}

/// Appends the sign and the word for the status of `result`.
fn push_status(out: &mut String, result: &ValidationResult)
    ensures
        final(out)@ == old(out)@ + status_mark(result@) + " "@ + status_word(result@),
{
    if result.is_pass() {
        out.append("✓");
        out.append(" ");
        out.append("Pass");
    } else {
        out.append("✗");
        out.append(" ");
        out.append("Fail");
    }
}

/// Appends what a verbose report starts with.
fn push_preamble(out: &mut String, results: &[ValidationResult], file_path: &str)
    ensures
        final(out)@ == old(out)@ + preamble(reports_of(results@), file_path@),
{
    let ghost reports = reports_of(results@);
    let ghost start = out@;
    out.append("Checking file: ");
    out.append(file_path);
    out.append("\n\n");
    out.append("Running validators...\n");
    let ghost head = out@;
    let mut i: usize = 0;
    while i < results.len()
        invariant
            i <= results.len(),
            reports == reports_of(results@),
            out@ == head + progress_lines(reports, i as nat),
        decreases results.len() - i,
    {
        let ghost before = out@;
        out.append("[");
        push_decimal(out, i + 1);
        out.append("/");
        push_decimal(out, results.len());
        out.append("] ");
        out.append(results[i].validator_name.as_str());
        out.append("... ");
        push_status(out, &results[i]);
        out.append("\n");
        assert(out@ =~= before + progress_line(reports, i as int));
        i = i + 1;
    }
    out.append("\n");
    assert(out@ =~= start + preamble(reports, file_path@));
}

/// Appends the summary line of `result` and its errors, one line each.
fn push_breakdown(out: &mut String, result: &ValidationResult)
    ensures
        final(out)@ == old(out)@ + breakdown(result@),
{
    let ghost start = out@;
    out.append(result.validator_name.as_str());
    out.append(": ");
    push_status(out, result);
    if !result.errors.is_empty() {
        out.append(" (");
        push_decimal(out, result.errors.len());
        out.append(" errors)");
    }
    out.append("\n");
    assert(out@ =~= start + summary_line(result@));
    let ghost head = out@;
    let mut i: usize = 0;
    while i < result.errors.len()
        invariant
            i <= result.errors.len(),
            out@ == head + finding_lines(result@.findings, i as nat),
        decreases result.errors.len() - i,
    {
        let ghost before = out@;
        out.append("  ");
        out.append(result.errors[i].to_string().as_str());
        out.append("\n");
        assert(out@ =~= before + "  "@ + result@.findings[i as int].rendered() + "\n"@);
        i = i + 1;
    }
    assert(out@ =~= start + breakdown(result@));
}

/// Whether every result of `results` is a pass.
fn every_result_passes(results: &[ValidationResult]) -> (passes: bool)
    ensures
        passes == all_pass(reports_of(results@)),
{
    let mut i: usize = 0;
    while i < results.len()
        invariant
            i <= results.len(),
            forall|j: int|
                0 <= j < i ==> (#[trigger] reports_of(results@)[j]).status
                    == ValidationStatus::Pass,
        decreases results.len() - i,
    {
        if !results[i].is_pass() {
            assert(reports_of(results@)[i as int].status != ValidationStatus::Pass);
            return false;
        }
        i = i + 1;
    }
    true
}

/// Renders `results` for the file at `file_path`: one line where every
/// validator passed, else every validator with its errors, each error as
/// `Line <n>[, Column <c>]: <message>`. With `verbose`, the progress through
/// the validators comes first.
pub fn format_results(
    results: &[ValidationResult],
    file_path: &str,
    verbose: bool,
) -> (output: String)
    ensures
        output@ == report_text(reports_of(results@), file_path@, verbose),
{
    let ghost reports = reports_of(results@);
    let mut output = String::new();

    if verbose {
        push_preamble(&mut output, results, file_path);
    }
    let ghost head = output@;

    if every_result_passes(results) {
        output.append("✓ File validation successful: ");
        output.append(file_path);
        output.append("\n");
        assert(output@ =~= head + verdict(reports, file_path@));
    } else {
        output.append("✗ File validation failed: ");
        output.append(file_path);
        output.append("\n\n");
        let ghost top = output@;
        let mut i: usize = 0;
        while i < results.len()
            invariant
                i <= results.len(),
                reports == reports_of(results@),
                output@ == top + breakdowns(reports, i as nat),
            decreases results.len() - i,
        {
            push_breakdown(&mut output, &results[i]);
            i = i + 1;
        }
        assert(output@ =~= head + verdict(reports, file_path@));
    }
    assert(output@ =~= report_text(reports, file_path@, verbose));
    output
}

/// Whether a validator has failed, so that the run must end with an error.
pub fn should_exit_with_error(results: &[ValidationResult]) -> (failed: bool)
    ensures
        failed <==> exists|i: int|
            0 <= i < results@.len() && (#[trigger] results@[i]).status == ValidationStatus::Fail,
        failed == !all_pass(reports_of(results@)),
{
    let mut i: usize = 0;
    while i < results.len()
        invariant
            i <= results.len(),
            forall|j: int|
                0 <= j < i ==> (#[trigger] results@[j]).status != ValidationStatus::Fail,
        decreases results.len() - i,
    {
        if results[i].is_fail() {
            assert(reports_of(results@)[i as int].status == ValidationStatus::Fail);
            return true;
        }
        i = i + 1;
    }
    assert forall|j: int| 0 <= j < reports_of(results@).len() implies (#[trigger] reports_of(
        results@,
    )[j]).status == ValidationStatus::Pass by {
        assert(results@[j].status != ValidationStatus::Fail);
    }
    false
}

} // verus!
