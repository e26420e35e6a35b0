//! What to do with one file, given its content and the mode of the run.
//!
//! The decision is a pure function. The caller reads the file, asks
//! [`decide`], and then prints, writes or leaves the file alone as the answer
//! says. A file is only ever written with text that passes every validator.

use vstd::prelude::*;

use crate::fixer::{
    fix_tree_symbols, fixed_text, has_substitute, lemma_fix_keeps_ascii, lemma_fixed_text_chars,
    lemma_fixed_text_concat, lemma_fixed_text_push, lemma_replacement_is_final, replacement,
};
use crate::reporter::should_exit_with_error;
use crate::validators::unprintable::is_printable;
use crate::validators::{
    lemma_all_pass_iff_printable, lemma_printable_text_passes, reports, validate_all,
};
use crate::{all_pass, reports_of, ValidationResult};

verus! {

/// What is to be done with a file.
#[derive(Debug)]
pub enum Decision {
    /// A fix was asked for and there is nothing to fix: say so.
    Clean,
    /// No fix was asked for: print the report on `results`. `failed` tells
    /// whether a validator failed.
    Report { results: Vec<ValidationResult>, failed: bool },
    /// A dry run: the fix would remove every violation, `tree_symbols` of
    /// them tree symbols. Nothing is written.
    Preview { results: Vec<ValidationResult>, tree_symbols: usize },
    /// Write `fixed` in place of the content: it passes every validator.
    /// `tree_symbols` tree symbols were replaced.
    Write { fixed: String, tree_symbols: usize },
    /// The fixed text would still fail: leave the file as it is and print
    /// the report on `results`.
    Unfixable { results: Vec<ValidationResult> },
}

impl Decision {
    /// Whether the file counts as failed for the run as a whole.
    pub fn is_failure(&self) -> (failure: bool)
        ensures
            failure <==> (*self matches Decision::Report { failed, .. } && failed)
                || self is Unfixable,
    {
        match self {
            Decision::Report { failed, .. } => *failed,
            Decision::Unfixable { .. } => true,
            _ => false,
        }
    }
}

/// Whether the fixer turns `text` into text that every validator passes.
pub open spec fn fixable(text: Seq<char>) -> bool {
    all_pass(reports(fixed_text(text)))
}

/// Decides what to do with a file that holds `content`.
///
/// Without `fix` and `dry_run` the file is validated and reported. With one
/// of them, a file without violations is left alone; a file with violations
/// is fixed in memory and validated again. Only if the fixed text passes
/// every validator is it handed out to be written (or, in a dry run,
/// announced); otherwise the file is reported as not fixable. A dry run
/// writes nothing, also where `fix` is set too.
pub fn decide(content: &str, fix: bool, dry_run: bool) -> (decision: Decision)
    ensures
        decision is Report <==> !fix && !dry_run,
        decision is Clean <==> (fix || dry_run) && all_pass(reports(content@)),
        decision is Preview <==> dry_run && !all_pass(reports(content@)) && fixable(content@),
        decision is Write <==> fix && !dry_run && !all_pass(reports(content@)) && fixable(
            content@,
        ),
        decision is Unfixable <==> (fix || dry_run) && !all_pass(reports(content@)) && !fixable(
            content@,
        ),
        match decision {
            Decision::Clean => true,
            Decision::Report { results, failed } => {
                &&& reports_of(results@) == reports(content@)
                &&& failed == !all_pass(reports(content@))
            },
            Decision::Preview { results, tree_symbols } => {
                &&& reports_of(results@) == reports(content@)
                &&& tree_symbols == reports(content@)[2].findings.len()
            },
            Decision::Write { fixed, tree_symbols } => {
                &&& fixed@ == fixed_text(content@)
                &&& all_pass(reports(fixed@))
                &&& tree_symbols == reports(content@)[2].findings.len()
            },
            Decision::Unfixable { results } => reports_of(results@) == reports(content@),
        },
{
    let results = validate_all(content);
    let needs_fixing = should_exit_with_error(results.as_slice());
    if !fix && !dry_run {
        return Decision::Report { results, failed: needs_fixing };
    }
    if !needs_fixing {
        return Decision::Clean;
    }
    let fixed = fix_tree_symbols(content);
    let fixed_results = validate_all(fixed.as_str());
    if should_exit_with_error(fixed_results.as_slice()) {
        return Decision::Unfixable { results };
    }
    let tree_symbols = results[2].errors.len();
    assert(reports_of(results@)[2] == results@[2]@);
    if dry_run {
        Decision::Preview { results, tree_symbols }
    } else {
        Decision::Write { fixed, tree_symbols }
    }
}

/// Text made of printable characters only is clean: every validator passes
/// it, and the fixer leaves it as it is.
pub proof fn lemma_printable_text_is_clean(text: Seq<char>)
    requires
        forall|i: int| 0 <= i < text.len() ==> is_printable(#[trigger] text[i]),
    ensures
        all_pass(reports(text)),
        fixed_text(text) == text,
{
    lemma_printable_text_passes(text);
    lemma_fix_keeps_ascii(text);
}

/// Text can be fixed where each of its characters is printable or has a
/// substitute in the table: the fixed text then passes every validator.
pub proof fn lemma_known_text_is_fixable(text: Seq<char>)
    requires
        forall|i: int|
            0 <= i < text.len() ==> is_printable(#[trigger] text[i]) || has_substitute(text[i]),
    ensures
        fixable(text),
{
    let printable = |c: char| is_printable(c);
    assert forall|i: int, j: int|
        0 <= i < text.len() && 0 <= j < replacement(text[i]).len() implies printable(
        #[trigger] replacement(#[trigger] text[i])[j],
    ) by {
        lemma_replacement_is_final(text[i]);
        assert(is_printable(text[i]) || has_substitute(text[i]));
    }
    lemma_fixed_text_chars(text, printable);
    assert forall|k: int| 0 <= k < fixed_text(text).len() implies is_printable(
        #[trigger] fixed_text(text)[k],
    ) by {
        assert(printable(fixed_text(text)[k]));
    }
    lemma_printable_text_passes(fixed_text(text));
}

/// A character that is neither printable nor known to the table makes a
/// text impossible to fix: it stays, and a validator flags it again.
pub proof fn lemma_unknown_character_is_unfixable(text: Seq<char>, i: int)
    requires
        0 <= i < text.len(),
        !is_printable(text[i]),
        !has_substitute(text[i]),
    ensures
        !fixable(text),
{
    let front = text.take(i);
    let back = text.skip(i + 1);
    assert(text =~= front + seq![text[i]] + back);
    lemma_fixed_text_concat(front + seq![text[i]], back);
    lemma_fixed_text_concat(front, seq![text[i]]);
    lemma_fixed_text_push(Seq::empty(), text[i]);
    assert(Seq::<char>::empty().push(text[i]) =~= seq![text[i]]);
    assert(Seq::<char>::empty().map_values(|c: char| replacement(c)) =~= Seq::<Seq<char>>::empty());
    assert(fixed_text(Seq::<char>::empty()) =~= Seq::<char>::empty());
    let fixed = fixed_text(text);
    let at = fixed_text(front).len() as int;
    assert(fixed[at] == text[i]);
    lemma_all_pass_iff_printable(fixed);
}

/// Whether a text can be fixed is a matter of its characters alone: each
/// must be printable or have a substitute in the table.
pub proof fn lemma_fixable_iff_known(text: Seq<char>)
    ensures
        fixable(text) <==> forall|i: int|
            0 <= i < text.len() ==> is_printable(#[trigger] text[i]) || has_substitute(text[i]),
{
    if forall|i: int|
        0 <= i < text.len() ==> is_printable(#[trigger] text[i]) || has_substitute(text[i]) {
        lemma_known_text_is_fixable(text);
    } else {
        let i = choose|i: int|
            0 <= i < text.len() && !(is_printable(#[trigger] text[i]) || has_substitute(text[i]));
        lemma_unknown_character_is_unfixable(text, i);
    }
}

} // verus!
