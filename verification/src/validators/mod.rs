//! The validators, and the scan that they share.
//!
//! Each validator judges one character at a time. The scan walks the text
//! once, keeps track of line and column, and records every character that the
//! validator's rule flags.

use vstd::prelude::*;

use crate::text::{
    column_of, lemma_chars_fit_bytes, lemma_line_start, line_of, line_start, newlines_before,
};
use crate::{
    all_pass, findings_of, reports_of, Finding, Report, ValidationError, ValidationResult,
    ValidationStatus, Validator,
};

pub mod ascii;
pub mod tree_symbols;
pub mod unprintable;

pub use ascii::AsciiValidator;
pub use tree_symbols::TreeSymbolValidator;
pub use unprintable::UnprintableValidator;

verus! {

/// A rule on single characters: which ones it flags, and what it says of one.
///
/// A rule looks at the characters of the lines, not at what ends a line: it
/// flags neither the line feed nor the carriage return.
pub trait CharRule {
    /// Whether the rule flags `c`.
    spec fn flags(c: char) -> bool;

    /// What the rule says of a flagged character.
    spec fn message(c: char) -> Seq<char>;

    /// The two characters that end lines are never flagged.
    proof fn line_ends_pass()
        ensures
            !Self::flags('\n'),
            !Self::flags('\r'),
    ;

    /// Tells whether the rule flags `c`.
    fn is_flagged(c: char) -> (flagged: bool)
        ensures
            flagged == Self::flags(c),
    ;

    /// Writes out what the rule says of `c`.
    fn describe(c: char) -> (message: String)
        ensures
            message@ == Self::message(c),
    ;
}

/// The positions below `n` at which `text` holds a character that `R` flags,
/// in rising order.
pub open spec fn flagged_below<R: CharRule>(text: Seq<char>, n: nat) -> Seq<int> {
    Seq::new(n, |i: int| i).filter(|i: int| R::flags(text[i]))
}

/// What `R` reports of the character at position `i`.
pub open spec fn finding_at<R: CharRule>(text: Seq<char>, i: int) -> Finding {
    Finding {
        line: line_of(text, i),
        column: Some(column_of(text, i)),
        message: R::message(text[i]),
        context: None,
    }
}

/// What `R` reports of the first `n` characters of `text`.
pub open spec fn violations_below<R: CharRule>(text: Seq<char>, n: nat) -> Seq<Finding> {
    flagged_below::<R>(text, n).map_values(|i: int| finding_at::<R>(text, i))
}

/// What `R` reports of `text`: one finding for each flagged character, from
/// the first to the last.
pub open spec fn violations<R: CharRule>(text: Seq<char>) -> Seq<Finding> {
    violations_below::<R>(text, text.len())
}

/// One more character adds its finding at the end, if the rule flags it.
pub proof fn lemma_violations_step<R: CharRule>(text: Seq<char>, n: nat)
    requires
        n < text.len(),
    ensures
        violations_below::<R>(text, n + 1) == if R::flags(text[n as int]) {
            violations_below::<R>(text, n).push(finding_at::<R>(text, n as int))
        } else {
            violations_below::<R>(text, n)
        },
        flagged_below::<R>(text, n + 1) == if R::flags(text[n as int]) {
            flagged_below::<R>(text, n).push(n as int)
        } else {
            flagged_below::<R>(text, n)
        },
{
    let all = Seq::new(n + 1, |i: int| i);
    let pred = |i: int| R::flags(text[i]);
    assert(all.drop_last() =~= Seq::new(n, |i: int| i));
    reveal(Seq::filter);
    assert(all.filter(pred) == if pred(all.last()) {
        all.drop_last().filter(pred).push(all.last())
    } else {
        all.drop_last().filter(pred)
    });
    assert(violations_below::<R>(text, n + 1) =~= if R::flags(text[n as int]) {
        violations_below::<R>(text, n).push(finding_at::<R>(text, n as int))
    } else {
        violations_below::<R>(text, n)
    });
}

/// Walks `content` once and records what `R` flags, with line and column.
pub fn scan<R: CharRule>(content: &str) -> (errors: Vec<ValidationError>)
    ensures
        findings_of(errors@) == violations::<R>(content@),
{
    let length = content.as_bytes().len();
    proof {
        lemma_chars_fit_bytes(content@);
    }
    let mut errors: Vec<ValidationError> = Vec::new();
    let mut line: usize = 0;
    let mut column: usize = 0;
    assert(findings_of(errors@) =~= violations_below::<R>(content@, 0));
    for ch in chars: content.chars()
        invariant
            chars.seq() == content@,
            content@.len() <= length,
            line == newlines_before(content@, chars.index() as int),
            column == chars.index() - line_start(content@, chars.index() as int),
            line <= chars.index(),
            column <= chars.index(),
            findings_of(errors@) == violations_below::<R>(content@, chars.index() as nat),
    {
        let ghost at = chars.index() as nat;
        proof {
            lemma_violations_step::<R>(content@, at);
        }
        if R::is_flagged(ch) {
            let ghost before = errors@;
            let error = ValidationError::new(line + 1, R::describe(ch)).with_column(column + 1);
            errors.push(error);
            assert(findings_of(errors@) =~= findings_of(before).push(error@));
        }
        if ch == '\n' {
            line = line + 1;
            column = 0;
        } else {
            column = column + 1;
        }
    }
    errors
}

/// What the three validators report of `text`: first the check for ASCII,
/// then the check for printable characters, then the check for tree symbols.
pub open spec fn reports(text: Seq<char>) -> Seq<Report> {
    seq![
        Report::of(AsciiValidator.title(), AsciiValidator.findings(text)),
        Report::of(UnprintableValidator.title(), UnprintableValidator.findings(text)),
        Report::of(TreeSymbolValidator.title(), TreeSymbolValidator.findings(text)),
    ]
}

/// Run all validators on the content.
pub fn validate_all(content: &str) -> (results: Vec<ValidationResult>)
    ensures
        results@.len() == 3,
        reports_of(results@) == reports(content@),
{
    let results = vec![
        AsciiValidator.validate(content),
        UnprintableValidator.validate(content),
        TreeSymbolValidator.validate(content),
    ];
    assert(reports_of(results@) =~= reports(content@));
    results
}

/// The flagged positions are listed once each and in rising order, and none
/// is left out: there is exactly one finding for each flagged character.
pub proof fn lemma_flagged_positions<R: CharRule>(text: Seq<char>, n: nat)
    requires
        n <= text.len(),
    ensures
        ({
            let at = flagged_below::<R>(text, n);
            &&& at.len() <= n
            &&& forall|k: int| 0 <= k < at.len() ==> 0 <= #[trigger] at[k] < n
            &&& forall|k: int| 0 <= k < at.len() ==> R::flags(text[#[trigger] at[k]])
            &&& forall|j: int, k: int| 0 <= j < k < at.len() ==> at[j] < at[k]
            &&& forall|i: int| 0 <= i < n && R::flags(#[trigger] text[i]) ==> at.contains(i)
        }),
    decreases n,
{
    if n == 0 {
        assert(flagged_below::<R>(text, n) =~= Seq::empty()) by {
            reveal(Seq::filter);
            assert(Seq::new(n, |i: int| i) =~= Seq::empty());
        }
    } else {
        let m = (n - 1) as nat;
        lemma_flagged_positions::<R>(text, m);
        lemma_violations_step::<R>(text, m);
        let shorter = flagged_below::<R>(text, m);
        let longer = flagged_below::<R>(text, n);
        assert forall|i: int| 0 <= i < n && R::flags(#[trigger] text[i]) implies longer.contains(
            i,
        ) by {
            if i < m {
                let k = choose|k: int| 0 <= k < shorter.len() && shorter[k] == i;
                assert(longer[k] == i);
            } else {
                assert(longer[longer.len() - 1] == i);
            }
        }
    }
}

/// The findings follow the flagged positions: the finding at index `k` is
/// about the character at the `k`-th flagged position, which is a character
/// of a line and not the end of one.
pub proof fn lemma_violations_at<R: CharRule>(text: Seq<char>, k: int)
    requires
        0 <= k < violations::<R>(text).len(),
    ensures
        ({
            let at = flagged_below::<R>(text, text.len());
            &&& violations::<R>(text).len() == at.len()
            &&& 0 <= at[k] < text.len()
            &&& text[at[k]] != '\n' && text[at[k]] != '\r'
            &&& violations::<R>(text)[k] == finding_at::<R>(text, at[k])
            &&& violations::<R>(text)[k].positioned()
        }),
{
    R::line_ends_pass();
    lemma_flagged_positions::<R>(text, text.len());
    lemma_line_start(text, flagged_below::<R>(text, text.len())[k]);
}

/// A text passes exactly when the rule flags none of its characters.
pub proof fn lemma_pass_iff_nothing_flagged<R: CharRule>(text: Seq<char>)
    ensures
        violations::<R>(text).len() == 0 <==> forall|i: int|
            0 <= i < text.len() ==> !R::flags(#[trigger] text[i]),
{
    lemma_flagged_positions::<R>(text, text.len());
    let at = flagged_below::<R>(text, text.len());
    if at.len() > 0 {
        assert(R::flags(text[at[0]]));
    }
    if exists|i: int| 0 <= i < text.len() && R::flags(#[trigger] text[i]) {
        let i = choose|i: int| 0 <= i < text.len() && R::flags(#[trigger] text[i]);
        assert(at.contains(i));
    }
}

/// There are as many findings as the text has flagged characters.
pub proof fn lemma_violation_count<R: CharRule>(text: Seq<char>, n: nat)
    requires
        n <= text.len(),
    ensures
        violations_below::<R>(text, n).len() == text.take(n as int).filter(
            |c: char| R::flags(c),
        ).len(),
    decreases n,
{
    let pred = |c: char| R::flags(c);
    reveal(Seq::filter);
    if n == 0 {
        assert(Seq::new(n, |i: int| i) =~= Seq::empty());
        assert(text.take(0) =~= Seq::empty());
    } else {
        let m = (n - 1) as nat;
        lemma_violation_count::<R>(text, m);
        lemma_violations_step::<R>(text, m);
        assert(text.take(n as int).drop_last() =~= text.take(m as int));
    }
}

/// What the validators return is well formed: a report fails exactly when
/// it holds a finding, and every finding has a line and a column counted
/// from 1.
pub proof fn lemma_reports_well_formed(text: Seq<char>)
    ensures
        forall|i: int| 0 <= i < 3 ==> (#[trigger] reports(text)[i]).well_formed(),
{
    let ascii = violations::<AsciiValidator>(text);
    assert forall|k: int| 0 <= k < ascii.len() implies (#[trigger] ascii[k]).positioned() by {
        lemma_violations_at::<AsciiValidator>(text, k);
    }
    let unprintable = violations::<UnprintableValidator>(text);
    assert forall|k: int| 0 <= k < unprintable.len() implies (
    #[trigger] unprintable[k]).positioned() by {
        lemma_violations_at::<UnprintableValidator>(text, k);
    }
    let tree = violations::<TreeSymbolValidator>(text);
    assert forall|k: int| 0 <= k < tree.len() implies (#[trigger] tree[k]).positioned() by {
        lemma_violations_at::<TreeSymbolValidator>(text, k);
    }
}

/// Text made of printable characters only (code points 32 to 126, space,
/// tab, line feed, carriage return) passes the check for ASCII and the check
/// for printable characters, and the check for tree symbols too.
pub proof fn lemma_printable_text_passes(text: Seq<char>)
    requires
        forall|i: int| 0 <= i < text.len() ==> unprintable::is_printable(#[trigger] text[i]),
    ensures
        AsciiValidator.findings(text) == Seq::<Finding>::empty(),
        UnprintableValidator.findings(text) == Seq::<Finding>::empty(),
        TreeSymbolValidator.findings(text) == Seq::<Finding>::empty(),
        reports(text)[0].status == ValidationStatus::Pass,
        reports(text)[1].status == ValidationStatus::Pass,
        reports(text)[2].status == ValidationStatus::Pass,
        all_pass(reports(text)),
{
    lemma_pass_iff_nothing_flagged::<AsciiValidator>(text);
    lemma_pass_iff_nothing_flagged::<UnprintableValidator>(text);
    lemma_pass_iff_nothing_flagged::<TreeSymbolValidator>(text);
    assert(AsciiValidator.findings(text) =~= Seq::<Finding>::empty());
    assert(UnprintableValidator.findings(text) =~= Seq::<Finding>::empty());
    assert(TreeSymbolValidator.findings(text) =~= Seq::<Finding>::empty());
}

/// Every validator passes exactly when the text is made of printable
/// characters only.
pub proof fn lemma_all_pass_iff_printable(text: Seq<char>)
    ensures
        all_pass(reports(text)) <==> forall|i: int|
            0 <= i < text.len() ==> unprintable::is_printable(#[trigger] text[i]),
{
    if forall|i: int| 0 <= i < text.len() ==> unprintable::is_printable(#[trigger] text[i]) {
        lemma_printable_text_passes(text);
    }
    if all_pass(reports(text)) {
        assert(reports(text)[1].status == ValidationStatus::Pass);
        lemma_pass_iff_nothing_flagged::<UnprintableValidator>(text);
    }
}

} // verus!
