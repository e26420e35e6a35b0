//! The check for characters that cannot be printed.

use vstd::prelude::*;
use vstd::string::*;

use crate::text::{code_point_hex, push_code_point};
use crate::validators::{scan, violations, CharRule};
use crate::{findings_of, Finding, ValidationResult, Validator};

verus! {

/// Flags every character that is neither printable ASCII nor allowed white
/// space.
pub struct UnprintableValidator;

/// Space, tab, line feed and carriage return.
pub open spec fn is_allowed_whitespace(c: char) -> bool {
    c == ' ' || c == '\t' || c == '\n' || c == '\r'
}

/// A character is printable if its code point lies in 32 to 126, or if it is
/// allowed white space.
pub open spec fn is_printable(c: char) -> bool {
    32 <= c as u32 <= 126 || is_allowed_whitespace(c)
}

impl UnprintableValidator {
    /// Whether `ch` is space, tab, line feed or carriage return.
    pub fn is_allowed_whitespace(ch: char) -> (allowed: bool)
        ensures
            allowed == is_allowed_whitespace(ch),
    {
        ch == ' ' || ch == '\t' || ch == '\n' || ch == '\r'
    }

    /// Whether `ch` can be printed.
    pub fn is_printable(ch: char) -> (printable: bool)
        ensures
            printable == is_printable(ch),
    {
        let code: u32 = ch as u32;
        (32 <= code && code <= 126) || Self::is_allowed_whitespace(ch)
    }
}

impl CharRule for UnprintableValidator {
    open spec fn flags(c: char) -> bool {
        !is_printable(c)
    }

    open spec fn message(c: char) -> Seq<char> {
        "Unprintable character: U+"@ + code_point_hex(c)
    }

    proof fn line_ends_pass() {
    }

    fn is_flagged(c: char) -> (flagged: bool) {
        !Self::is_printable(c)
    }

    fn describe(c: char) -> (message: String) {
        let mut message = String::new();
        message.append("Unprintable character: U+");
        push_code_point(&mut message, c);
        assert(message@ =~= Self::message(c));
        message
    }
}

impl Validator for UnprintableValidator {
    open spec fn title(&self) -> Seq<char> {
        "Printable Characters"@
    }

    open spec fn findings(&self, text: Seq<char>) -> Seq<Finding> {
        violations::<UnprintableValidator>(text)
    }

    fn name(&self) -> (name: &str) {
        "Printable Characters"
    }

    fn validate(&self, content: &str) -> (result: ValidationResult) {
        let errors = scan::<UnprintableValidator>(content);
        if errors.is_empty() {
            assert(findings_of(errors@) =~= Seq::empty());
            ValidationResult::pass(self.name().to_owned())
        } else {
            ValidationResult::fail(self.name().to_owned(), errors)
        }
    }
}

} // verus!
