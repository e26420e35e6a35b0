//! The check for box-drawing characters, as directory trees are drawn with.

use vstd::prelude::*;
use vstd::string::*;

use crate::text::{
    code_point_hex, column_of, in_box_drawing_block, lemma_code_point_hex_digits, line_of,
    push_code_point,
};
use crate::validators::{
    flagged_below, lemma_flagged_positions, lemma_pass_iff_nothing_flagged, lemma_violation_count,
    scan, violations, CharRule,
};
use crate::{findings_of, Finding, Report, ValidationResult, ValidationStatus, Validator};

verus! {

/// Flags every tree symbol and proposes an ASCII character in its place.
pub struct TreeSymbolValidator;

/// The tree symbols that are known by name: tees, corners, bars, the cross,
/// arcs and diagonals.
pub open spec fn is_named_tree_symbol(c: char) -> bool {
    match c {
        '├' | '└' | '│' | '─' | '┌' | '┐' | '┘' | '┤' | '┴' | '┬' | '┼' => true,
        '╭' | '╮' | '╯' | '╰' | '╱' | '╲' | '╳' => true,
        _ => false,
    }
}

/// A tree symbol is one of the named ones, or any character of the
/// box-drawing block.
pub open spec fn is_tree_symbol(c: char) -> bool {
    is_named_tree_symbol(c) || in_box_drawing_block(c)
}

/// The advice given for a tree symbol. The first case that matches decides:
/// tees, then corners, then the vertical bar, then the horizontal bar, then
/// everything else.
pub open spec fn suggestion(c: char) -> Seq<char> {
    match c {
        '├' | '┤' => "Use '+' or '|' instead"@,
        '└' | '┘' | '┌' | '┐' => "Use '+' or '`' instead"@,
        '│' => "Use '|' instead"@,
        '─' => "Use '-' instead"@,
        _ => "Use standard ASCII characters like |, +, -, `"@,
    }
}

/// Every named tree symbol lies in the box-drawing block, so the block alone
/// says which characters are tree symbols.
pub proof fn lemma_tree_symbols_are_the_block(c: char)
    ensures
        is_tree_symbol(c) <==> in_box_drawing_block(c),
{
}

impl TreeSymbolValidator {
    /// Whether `ch` is a tree symbol.
    pub fn is_tree_symbol(ch: char) -> (found: bool)
        ensures
            found == is_tree_symbol(ch),
    {
        let code: u32 = ch as u32;
        let named = match ch {
            '├' | '└' | '│' | '─' | '┌' | '┐' | '┘' | '┤' | '┴' | '┬' | '┼' => true,
            '╭' | '╮' | '╯' | '╰' | '╱' | '╲' | '╳' => true,
            _ => false,
        };
        named || (code >= 0x2500 && code <= 0x257F)
    }

    /// What to write in place of the tree symbol `ch`.
    pub fn suggest_alternative(ch: char) -> (advice: &'static str)
        ensures
            advice@ == suggestion(ch),
    {
        match ch {
            '├' | '┤' => "Use '+' or '|' instead",
            '└' | '┘' | '┌' | '┐' => "Use '+' or '`' instead",
            '│' => "Use '|' instead",
            '─' => "Use '-' instead",
            _ => "Use standard ASCII characters like |, +, -, `",
        }
    }
}

impl CharRule for TreeSymbolValidator {
    open spec fn flags(c: char) -> bool {
        is_tree_symbol(c)
    }

    open spec fn message(c: char) -> Seq<char> {
        "Tree symbol '"@ + seq![c] + "' (U+"@ + code_point_hex(c) + ") detected. "@ + suggestion(c)
    }

    proof fn line_ends_pass() {
    }

    fn is_flagged(c: char) -> (flagged: bool) {
        Self::is_tree_symbol(c)
    }

    fn describe(c: char) -> (message: String) {
        let mut message = String::new();
        message.append("Tree symbol '");
        message.push(c);
        message.append("' (U+");
        push_code_point(&mut message, c);
        message.append(") detected. ");
        message.append(Self::suggest_alternative(c));
        assert(message@ =~= Self::message(c));
        message
    }
}

impl Validator for TreeSymbolValidator {
    open spec fn title(&self) -> Seq<char> {
        "Tree Symbols"@
    }

    open spec fn findings(&self, text: Seq<char>) -> Seq<Finding> {
        violations::<TreeSymbolValidator>(text)
    }

    fn name(&self) -> (name: &str) {
        "Tree Symbols"
    }

    fn validate(&self, content: &str) -> (result: ValidationResult) {
        let errors = scan::<TreeSymbolValidator>(content);
        if errors.is_empty() {
            assert(findings_of(errors@) =~= Seq::empty());
            ValidationResult::pass(self.name().to_owned())
        } else {
            ValidationResult::fail(self.name().to_owned(), errors)
        }
    }
}

/// Text with a character of the box-drawing block fails the check for tree
/// symbols, with exactly one finding for each such character: the findings
/// follow those characters from the first to the last, and each gives the
/// line and the column of its character, its code point in four hexadecimal
/// digits, and the advice for it.
pub proof fn lemma_box_drawing_is_reported(text: Seq<char>)
    requires
        exists|i: int| 0 <= i < text.len() && in_box_drawing_block(#[trigger] text[i]),
    ensures
        ({
            let found = TreeSymbolValidator.findings(text);
            let at = flagged_below::<TreeSymbolValidator>(text, text.len());
            &&& Report::of(TreeSymbolValidator.title(), found).status == ValidationStatus::Fail
            &&& found.len() == text.filter(|c: char| in_box_drawing_block(c)).len()
            &&& found.len() == at.len()
            &&& forall|i: int|
                0 <= i < text.len() && in_box_drawing_block(#[trigger] text[i]) ==> at.contains(i)
            &&& forall|j: int, k: int| 0 <= j < k < at.len() ==> at[j] < at[k]
            &&& forall|k: int|
                0 <= k < found.len() ==> {
                    let i = at[k];
                    &&& 0 <= i < text.len()
                    &&& in_box_drawing_block(text[i])
                    &&& code_point_hex(text[i]).len() == 4
                    &&& (#[trigger] found[k]) == (Finding {
                        line: line_of(text, i),
                        column: Some(column_of(text, i)),
                        message: "Tree symbol '"@ + seq![text[i]] + "' (U+"@
                            + code_point_hex(text[i]) + ") detected. "@ + suggestion(text[i]),
                        context: None,
                    })
                }
        }),
{
    lemma_pass_iff_nothing_flagged::<TreeSymbolValidator>(text);
    lemma_flagged_positions::<TreeSymbolValidator>(text, text.len());
    lemma_violation_count::<TreeSymbolValidator>(text, text.len());
    assert(text.take(text.len() as int) =~= text);
    assert forall|c: char| TreeSymbolValidator::flags(c) == in_box_drawing_block(c) by {
        lemma_tree_symbols_are_the_block(c);
    }
    assert((|c: char| TreeSymbolValidator::flags(c)) =~= (|c: char| in_box_drawing_block(c)));
    assert forall|c: char| in_box_drawing_block(c) implies code_point_hex(c).len() == 4 by {
        lemma_code_point_hex_digits(c);
    }
}

} // verus!
