//! The check for characters outside ASCII.

use vstd::prelude::*;
use vstd::string::*;

use crate::text::{
    code_point_hex, column_of, lemma_code_point_hex_digits, line_of, push_code_point,
};
use crate::validators::{
    flagged_below, lemma_flagged_positions, lemma_pass_iff_nothing_flagged, lemma_violation_count,
    scan, violations, CharRule,
};
use crate::{findings_of, Finding, Report, ValidationResult, ValidationStatus, Validator};

verus! {

/// Flags every character whose code point is above 127.
pub struct AsciiValidator;

/// Whether `c` lies outside ASCII.
pub open spec fn is_non_ascii(c: char) -> bool {
    c as u32 > 127
}

impl CharRule for AsciiValidator {
    open spec fn flags(c: char) -> bool {
        is_non_ascii(c)
    }

    open spec fn message(c: char) -> Seq<char> {
        "Non-ASCII character: '"@ + seq![c] + "' (U+"@ + code_point_hex(c) + ")"@
    }

    proof fn line_ends_pass() {
    }

    fn is_flagged(c: char) -> (flagged: bool) {
        c as u32 > 127
    }

    fn describe(c: char) -> (message: String) {
        let mut message = String::new();
        message.append("Non-ASCII character: '");
        message.push(c);
        message.append("' (U+");
        push_code_point(&mut message, c);
        message.append(")");
        assert(message@ =~= Self::message(c));
        message
    }
}

impl Validator for AsciiValidator {
    open spec fn title(&self) -> Seq<char> {
        "ASCII Subset"@
    }

    open spec fn findings(&self, text: Seq<char>) -> Seq<Finding> {
        violations::<AsciiValidator>(text)
    }

    fn name(&self) -> (name: &str) {
        "ASCII Subset"
    }

    fn validate(&self, content: &str) -> (result: ValidationResult) {
        let errors = scan::<AsciiValidator>(content);
        if errors.is_empty() {
            assert(findings_of(errors@) =~= Seq::empty());
            ValidationResult::pass(self.name().to_owned())
        } else {
            ValidationResult::fail(self.name().to_owned(), errors)
        }
    }
}

/// Text with a character above code point 127 fails the check for ASCII,
/// with exactly one finding for each such character: the findings follow
/// those characters from the first to the last, and each gives the line and
/// the column of its character and names its code point, in four
/// hexadecimal digits up to U+FFFF and in as many as it takes above.
pub proof fn lemma_non_ascii_is_reported(text: Seq<char>)
    requires
        exists|i: int| 0 <= i < text.len() && is_non_ascii(#[trigger] text[i]),
    ensures
        ({
            let found = AsciiValidator.findings(text);
            let at = flagged_below::<AsciiValidator>(text, text.len());
            &&& Report::of(AsciiValidator.title(), found).status == ValidationStatus::Fail
            &&& found.len() == text.filter(|c: char| is_non_ascii(c)).len()
            &&& found.len() == at.len()
            &&& forall|i: int|
                0 <= i < text.len() && is_non_ascii(#[trigger] text[i]) ==> at.contains(i)
            &&& forall|j: int, k: int| 0 <= j < k < at.len() ==> at[j] < at[k]
            &&& forall|k: int|
                0 <= k < found.len() ==> {
                    let i = at[k];
                    &&& 0 <= i < text.len()
                    &&& is_non_ascii(text[i])
                    &&& text[i] as u32 <= 0xFFFF ==> code_point_hex(text[i]).len() == 4
                    &&& (#[trigger] found[k]) == (Finding {
                        line: line_of(text, i),
                        column: Some(column_of(text, i)),
                        message: "Non-ASCII character: '"@ + seq![text[i]] + "' (U+"@
                            + code_point_hex(text[i]) + ")"@,
                        context: None,
                    })
                }
        }),
{
    lemma_pass_iff_nothing_flagged::<AsciiValidator>(text);
    lemma_flagged_positions::<AsciiValidator>(text, text.len());
    lemma_violation_count::<AsciiValidator>(text, text.len());
    assert(text.take(text.len() as int) =~= text);
    assert((|c: char| AsciiValidator::flags(c)) =~= (|c: char| is_non_ascii(c)));
    assert forall|c: char| c as u32 <= 0xFFFF implies code_point_hex(c).len() == 4 by {
        lemma_code_point_hex_digits(c);
    }
}

} // verus!
