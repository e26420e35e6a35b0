//! Checks text against a restricted character set (printable ASCII and the
//! usual white space), points out box-drawing characters, and rewrites the
//! Unicode characters it knows into plain ASCII.
//!
//! Every function here is pure: it takes a text and returns a value. Reading
//! and writing files is left to the caller, who is told by
//! [`workflow::decide`] what to do with a file's content.

use vstd::prelude::*;
use vstd::string::*;

pub mod cli;
pub mod fixer;
pub mod reporter;
pub mod text;
pub mod validators;
pub mod workflow;

verus! {

/// Outcome of one validator run.
#[derive(Debug, Clone, Copy, PartialEq, Eq, Structural)]
pub enum ValidationStatus {
    Pass,
    Fail,
}

/// What a [`ValidationError`] says, as a mathematical value.
pub struct Finding {
    pub line: nat,
    pub column: Option<nat>,
    pub message: Seq<char>,
    pub context: Option<Seq<char>>,
}

/// What a [`ValidationResult`] says, as a mathematical value.
pub struct Report {
    pub status: ValidationStatus,
    pub name: Seq<char>,
    pub findings: Seq<Finding>,
}

/// One violation found in a text.
#[derive(Debug, Clone, PartialEq, Eq)]
pub struct ValidationError {
    /// Line of the violation, counted from 1.
    pub line_number: usize,
    /// Column of the violation in characters, counted from 1.
    pub column: Option<usize>,
    pub message: String,
    pub context: Option<String>,
}

/// The result of running one validator over a text.
#[derive(Debug, Clone)]
pub struct ValidationResult {
    pub status: ValidationStatus,
    pub validator_name: String,
    pub errors: Vec<ValidationError>,
}

impl Finding {
    /// Lines and columns are counted from 1.
    pub open spec fn positioned(self) -> bool {
        &&& self.line >= 1
        &&& self.column matches Some(c) ==> c >= 1
    }

    /// The finding as one line of a report: `Line <n>[, Column <c>]: <message>`.
    pub open spec fn rendered(self) -> Seq<char> {
        "Line "@ + text::decimal(self.line) + match self.column {
            Some(c) => ", Column "@ + text::decimal(c),
            None => Seq::<char>::empty(),
        } + ": "@ + self.message
    }
}

impl Report {
    /// The result that a validator called `name` gives when it finds
    /// `findings`: it fails exactly when there is a finding.
    pub open spec fn of(name: Seq<char>, findings: Seq<Finding>) -> Report {
        Report {
            status: if findings.len() == 0 {
                ValidationStatus::Pass
            } else {
                ValidationStatus::Fail
            },
            name,
            findings,
        }
    }

    /// Status and findings agree: the status is `Fail` exactly when there is
    /// a finding, and every finding has a position counted from 1.
    pub open spec fn well_formed(self) -> bool {
        &&& self.status == ValidationStatus::Fail <==> self.findings.len() > 0
        &&& forall|i: int|
            0 <= i < self.findings.len() ==> (#[trigger] self.findings[i]).positioned()
    }
}

impl View for ValidationError {
    type V = Finding;

    open spec fn view(&self) -> Finding {
        Finding {
            line: self.line_number as nat,
            column: match self.column {
                Some(c) => Some(c as nat),
                None => None,
            },
            message: self.message@,
            context: match self.context {
                Some(s) => Some(s@),
                None => None,
            },
        }
    }
}

impl View for ValidationResult {
    type V = Report;

    open spec fn view(&self) -> Report {
        Report {
            status: self.status,
            name: self.validator_name@,
            findings: findings_of(self.errors@),
        }
    }
}

/// The findings that a list of errors stands for, in the same order.
pub open spec fn findings_of(errors: Seq<ValidationError>) -> Seq<Finding> {
    errors.map_values(|e: ValidationError| e@)
}

/// The reports that a list of results stands for, in the same order.
pub open spec fn reports_of(results: Seq<ValidationResult>) -> Seq<Report> {
    results.map_values(|r: ValidationResult| r@)
}

/// Whether every report of `reports` has passed.
pub open spec fn all_pass(reports: Seq<Report>) -> bool {
    forall|i: int|
        0 <= i < reports.len() ==> (#[trigger] reports[i]).status == ValidationStatus::Pass
}

impl ValidationError {
    /// An error on line `line_number`, without column and context.
    pub fn new(line_number: usize, message: String) -> (error: Self)
        ensures
            error@ == (Finding {
                line: line_number as nat,
                column: None,
                message: message@,
                context: None,
            }),
            error.line_number == line_number,
            error.column is None,
            error.message == message,
            error.context is None,
    {
        Self { line_number, column: None, message, context: None }
    }

    /// The same error, at column `column`.
    pub fn with_column(self, column: usize) -> (error: Self)
        ensures
            error@ == (Finding { column: Some(column as nat), ..self@ }),
            error.line_number == self.line_number,
            error.column == Some(column),
            error.message == self.message,
            error.context == self.context,
    {
        let mut error = self;
        error.column = Some(column);
        error
    }

    /// The same error, with `context` attached.
    pub fn with_context(self, context: String) -> (error: Self)
        ensures
            error@ == (Finding { context: Some(context@), ..self@ }),
            error.line_number == self.line_number,
            error.column == self.column,
            error.message == self.message,
            error.context == Some(context),
    {
        let mut error = self;
        error.context = Some(context);
        error
    }

    /// The error as one line of a report: `Line <n>[, Column <c>]: <message>`.
    pub fn to_string(&self) -> (line: String)
        ensures
            line@ == self@.rendered(),
    {
        let mut line = String::new();
        line.append("Line ");
        text::push_decimal(&mut line, self.line_number);
        if let Some(column) = self.column {
            line.append(", Column ");
            text::push_decimal(&mut line, column);
        }
        line.append(": ");
        line.append(self.message.as_str());
        assert(line@ =~= self@.rendered());
        line
    }
}

impl ValidationResult {
    /// A passing result without errors.
    pub fn pass(validator_name: String) -> (result: Self)
        ensures
            result@ == Report::of(validator_name@, Seq::empty()),
            result@.well_formed(),
            result.validator_name == validator_name,
    {
        let result = Self { status: ValidationStatus::Pass, validator_name, errors: Vec::new() };
        assert(result@.findings =~= Seq::empty());
        result
    }

    /// A failing result that carries `errors`, whatever they are. It is
    /// well formed exactly when `errors` is not empty and each error counts
    /// its line and column from 1.
    pub fn fail(validator_name: String, errors: Vec<ValidationError>) -> (result: Self)
        ensures
            result@ == (Report {
                status: ValidationStatus::Fail,
                name: validator_name@,
                findings: findings_of(errors@),
            }),
            errors@.len() > 0 ==> result@ == Report::of(validator_name@, findings_of(errors@)),
            result@.well_formed() <==> errors@.len() > 0 && forall|i: int|
                0 <= i < errors@.len() ==> (#[trigger] errors@[i])@.positioned(),
            result.validator_name == validator_name,
            result.errors == errors,
    {
        let result = Self { status: ValidationStatus::Fail, validator_name, errors };
        assert(result@.well_formed() <==> errors@.len() > 0 && forall|i: int|
            0 <= i < errors@.len() ==> (#[trigger] errors@[i])@.positioned()) by {
            assert(forall|i: int|
                0 <= i < errors@.len() ==> result@.findings[i] == (#[trigger] errors@[i])@);
            if result@.well_formed() {
                assert forall|i: int| 0 <= i < errors@.len() implies (
                #[trigger] errors@[i])@.positioned() by {
                    assert(result@.findings[i].positioned());
                }
            }
        }
        result
    }

    /// Whether the result is a pass.
    pub fn is_pass(&self) -> (pass: bool)
        ensures
            pass <==> self.status == ValidationStatus::Pass,
    {
        self.status == ValidationStatus::Pass
    }

    /// Whether the result is a failure.
    pub fn is_fail(&self) -> (fail: bool)
        ensures
            fail <==> self.status == ValidationStatus::Fail,
    {
        self.status == ValidationStatus::Fail
    }
}

/// A check that reads a text and reports what it finds.
pub trait Validator {
    /// The name of the validator, as `name` returns it.
    spec fn title(&self) -> Seq<char>;

    /// What the validator finds in `text`, in the order of the text.
    spec fn findings(&self, text: Seq<char>) -> Seq<Finding>;

    /// The name under which the validator reports.
    fn name(&self) -> (name: &str)
        ensures
            name@ == self.title(),
    ;

    /// Runs the check: the result passes where nothing is found, and fails
    /// with every finding otherwise.
    fn validate(&self, content: &str) -> (result: ValidationResult)
        ensures
            result@ == Report::of(self.title(), self.findings(content@)),
    ;
}

} // verus!
