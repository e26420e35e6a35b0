use markdown_checker::reporter::{format_results, should_exit_with_error};
use markdown_checker::validators::validate_all;
use markdown_checker::{ValidationError, ValidationResult};

#[test]
fn test_format_success() {
    let results = vec![ValidationResult::pass("Test Validator".to_string())];
    let output = format_results(&results, "test.md", false);
    assert!(output.contains("✓"));
    assert!(output.contains("successful"));
    assert!(output.contains("test.md"));
}

#[test]
fn test_format_failure() {
    let errors = vec![ValidationError::new(1, "Error 1".to_string())];
    let results = vec![ValidationResult::fail("Test Validator".to_string(), errors)];
    let output = format_results(&results, "test.md", false);
    assert!(output.contains("✗"));
    assert!(output.contains("failed"));
    assert!(output.contains("Error 1"));
}

#[test]
fn test_verbose_output() {
    let results = vec![
        ValidationResult::pass("Validator 1".to_string()),
        ValidationResult::pass("Validator 2".to_string()),
    ];
    let output = format_results(&results, "test.md", true);
    assert!(output.contains("Checking file:"));
    assert!(output.contains("[1/2]"));
    assert!(output.contains("[2/2]"));
    assert!(output.contains("Running validators"));
}

#[test]
fn test_should_exit_with_error_on_failure() {
    let results = vec![
        ValidationResult::pass("Good".to_string()),
        ValidationResult::fail("Bad".to_string(), vec![]),
    ];
    assert!(should_exit_with_error(&results));
}

#[test]
fn test_should_not_exit_on_success() {
    let results = vec![
        ValidationResult::pass("Good 1".to_string()),
        ValidationResult::pass("Good 2".to_string()),
    ];
    assert!(!should_exit_with_error(&results));
}

#[test]
fn success_is_one_line() {
    let results = vec![ValidationResult::pass("Test Validator".to_string())];
    assert_eq!(
        format_results(&results, "test.md", false),
        "✓ File validation successful: test.md\n"
    );
}

#[test]
fn no_results_count_as_success() {
    assert_eq!(format_results(&[], "empty.md", false), "✓ File validation successful: empty.md\n");
    assert!(!should_exit_with_error(&[]));
}

#[test]
fn failure_lists_every_validator_with_its_errors() {
    let errors = vec![
        ValidationError::new(1, "Error 1".to_string()),
        ValidationError::new(3, "Error 2".to_string()).with_column(7),
    ];
    let results = vec![
        ValidationResult::pass("First".to_string()),
        ValidationResult::fail("Second".to_string(), errors),
    ];
    assert_eq!(
        format_results(&results, "docs/test.md", false),
        "✗ File validation failed: docs/test.md\n\
         \n\
         First: ✓ Pass\n\
         Second: ✗ Fail (2 errors)\n\
         \x20 Line 1: Error 1\n\
         \x20 Line 3, Column 7: Error 2\n"
    );
}

#[test]
fn a_failure_without_errors_shows_no_count() {
    let results = vec![ValidationResult::fail("Bad".to_string(), vec![])];
    assert_eq!(
        format_results(&results, "t.md", false),
        "✗ File validation failed: t.md\n\nBad: ✗ Fail\n"
    );
}

#[test]
fn verbose_success_shows_the_progress_first() {
    let results = vec![
        ValidationResult::pass("Validator 1".to_string()),
        ValidationResult::pass("Validator 2".to_string()),
    ];
    assert_eq!(
        format_results(&results, "test.md", true),
        "Checking file: test.md\n\
         \n\
         Running validators...\n\
         [1/2] Validator 1... ✓ Pass\n\
         [2/2] Validator 2... ✓ Pass\n\
         \n\
         ✓ File validation successful: test.md\n"
    );
}

#[test]
fn verbose_failure_shows_progress_and_breakdown() {
    let results = validate_all("é");
    assert_eq!(
        format_results(&results, "a.md", true),
        "Checking file: a.md\n\
         \n\
         Running validators...\n\
         [1/3] ASCII Subset... ✗ Fail\n\
         [2/3] Printable Characters... ✗ Fail\n\
         [3/3] Tree Symbols... ✓ Pass\n\
         \n\
         ✗ File validation failed: a.md\n\
         \n\
         ASCII Subset: ✗ Fail (1 errors)\n\
         \x20 Line 1, Column 1: Non-ASCII character: 'é' (U+00E9)\n\
         Printable Characters: ✗ Fail (1 errors)\n\
         \x20 Line 1, Column 1: Unprintable character: U+00E9\n\
         Tree Symbols: ✓ Pass\n"
    );
}

#[test]
fn progress_counts_past_nine() {
    let mut results = Vec::new();
    for i in 0..12 {
        results.push(ValidationResult::pass(format!("V{}", i)));
    }
    let output = format_results(&results, "x", true);
    assert!(output.contains("[9/12] V8... ✓ Pass\n"));
    assert!(output.contains("[10/12] V9... ✓ Pass\n"));
    assert!(output.contains("[12/12] V11... ✓ Pass\n"));
}

#[test]
fn exit_follows_the_status_not_the_errors() {
    let mut passing_with_errors = ValidationResult::pass("Odd".to_string());
    passing_with_errors.errors.push(ValidationError::new(1, "ignored".to_string()));
    assert!(!should_exit_with_error(&[passing_with_errors]));
    assert!(should_exit_with_error(&[ValidationResult::fail("Bad".to_string(), vec![])]));
}

#[test]
fn exit_with_error_when_any_validator_fails() {
    assert!(!should_exit_with_error(&validate_all("fine")));
    assert!(should_exit_with_error(&validate_all("Hello\0World")));
    assert!(should_exit_with_error(&validate_all("é")));
}
