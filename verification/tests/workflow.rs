use markdown_checker::fixer::fix_tree_symbols;
use markdown_checker::validators::{validate_all, AsciiValidator, UnprintableValidator};
use markdown_checker::workflow::{decide, Decision};
use markdown_checker::Validator;

#[test]
fn plain_validation_reports_a_clean_file() {
    match decide("all fine\n", false, false) {
        Decision::Report { results, failed } => {
            assert!(!failed);
            assert_eq!(results.len(), 3);
            assert!(results.iter().all(|r| r.is_pass()));
        }
        other => panic!("unexpected decision: {:?}", other),
    }
}

#[test]
fn plain_validation_reports_a_failing_file() {
    let decision = decide("├── src/\n", false, false);
    assert!(decision.is_failure());
    match decision {
        Decision::Report { results, failed } => {
            assert!(failed);
            assert_eq!(results[2].validator_name, "Tree Symbols");
            assert_eq!(results[2].errors.len(), 3);
        }
        other => panic!("unexpected decision: {:?}", other),
    }
}

#[test]
fn fix_mode_leaves_a_clean_file_alone() {
    assert!(matches!(decide("all fine\n", true, false), Decision::Clean));
    assert!(matches!(decide("all fine\n", false, true), Decision::Clean));
    assert!(matches!(decide("", true, true), Decision::Clean));
    assert!(!decide("all fine\n", true, false).is_failure());
}

#[test]
fn fix_mode_writes_the_fixed_text() {
    let content = "├── src/\n│   └── main.rs\n";
    let decision = decide(content, true, false);
    assert!(!decision.is_failure());
    match decision {
        Decision::Write { fixed, tree_symbols } => {
            assert_eq!(fixed, "+-- src/\n|   +-- main.rs\n");
            assert_eq!(tree_symbols, 7);
            assert!(validate_all(&fixed).iter().all(|r| r.is_pass()));
        }
        other => panic!("unexpected decision: {:?}", other),
    }
}

#[test]
fn dry_run_announces_the_fix_and_writes_nothing() {
    let content = "├── src/\n";
    for fix in [false, true] {
        match decide(content, fix, true) {
            Decision::Preview { results, tree_symbols } => {
                assert_eq!(tree_symbols, 3);
                assert_eq!(results.len(), 3);
                assert!(results.iter().all(|r| r.is_fail()));
            }
            other => panic!("unexpected decision: {:?}", other),
        }
    }
}

#[test]
fn accents_are_fixed_and_count_no_tree_symbol() {
    let result = AsciiValidator.validate("Café");
    assert!(result.is_fail());
    assert_eq!(result.errors.len(), 1);
    assert_eq!(result.errors[0].line_number, 1);
    assert_eq!(result.errors[0].column, Some(4));
    assert_eq!(fix_tree_symbols("Café"), "Cafe");
    assert!(validate_all("Cafe").iter().all(|r| r.is_pass()));
    match decide("Café", true, false) {
        Decision::Write { fixed, tree_symbols } => {
            assert_eq!(fixed, "Cafe");
            assert_eq!(tree_symbols, 0);
        }
        other => panic!("unexpected decision: {:?}", other),
    }
}

#[test]
fn a_null_byte_cannot_be_fixed() {
    let content = "Hello\0World";
    let result = UnprintableValidator.validate(content);
    assert!(result.is_fail());
    assert!(result.errors[0].message.contains("U+0000"));
    assert_eq!(fix_tree_symbols(content), content);
    assert!(UnprintableValidator.validate(&fix_tree_symbols(content)).is_fail());
    for (fix, dry_run) in [(true, false), (false, true), (true, true)] {
        let decision = decide(content, fix, dry_run);
        assert!(decision.is_failure());
        match decision {
            Decision::Unfixable { results } => {
                assert!(results[0].is_pass());
                assert!(results[1].is_fail());
                assert!(results[2].is_pass());
            }
            other => panic!("unexpected decision: {:?}", other),
        }
    }
}

#[test]
fn a_file_that_is_only_partly_fixable_is_not_written() {
    // the tree symbols could be replaced, the ideographs cannot
    let decision = decide("├── 日本語.md\n", true, false);
    assert!(matches!(decision, Decision::Unfixable { .. }));
}

#[test]
fn pure_ascii_passes_everything_and_is_left_as_it_is() {
    let content = "# Title\n\n+-- src/\n|   +-- main.rs\n\tindented\r\n";
    assert!(validate_all(content).iter().all(|r| r.is_pass()));
    assert_eq!(fix_tree_symbols(content), content);
}

#[test]
fn whatever_is_written_passes_every_validator() {
    let inputs = [
        "├── src/\n",
        "Café",
        "Hello\0World",
        "✓ done → next",
        "日本語",
        "° and ∞ — fine…",
        "mixed ├ and \u{7F}",
        "plain",
    ];
    for input in inputs {
        let fixed_passes = validate_all(&fix_tree_symbols(input)).iter().all(|r| r.is_pass());
        let content_passes = validate_all(input).iter().all(|r| r.is_pass());
        match decide(input, true, false) {
            Decision::Write { fixed, .. } => {
                assert!(!content_passes && fixed_passes);
                assert_eq!(fixed, fix_tree_symbols(input));
            }
            Decision::Unfixable { .. } => assert!(!content_passes && !fixed_passes),
            Decision::Clean => assert!(content_passes),
            other => panic!("unexpected decision: {:?}", other),
        }
    }
}
