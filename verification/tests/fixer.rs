use markdown_checker::fixer::{fix_tree_symbols, is_box_drawing};

#[test]
fn test_fix_basic_tree_symbols() {
    let input = "├── src/\n│   └── main.rs\n";
    let expected = "+-- src/\n|   +-- main.rs\n";
    assert_eq!(fix_tree_symbols(input), expected);
}

#[test]
fn test_fix_preserves_ascii() {
    let input = "This is normal text\nWith normal characters";
    assert_eq!(fix_tree_symbols(input), input);
}

#[test]
fn test_fix_horizontal_bars() {
    let input = "──────";
    let expected = "------";
    assert_eq!(fix_tree_symbols(input), expected);
}

#[test]
fn test_fix_vertical_bars() {
    let input = "│\n│\n│";
    let expected = "|\n|\n|";
    assert_eq!(fix_tree_symbols(input), expected);
}

#[test]
fn test_fix_mixed_content() {
    let input = "# Project\n├── docs/\n│   ├── README.md\n│   └── guide.md\n└── src/";
    let expected = "# Project\n+-- docs/\n|   +-- README.md\n|   +-- guide.md\n+-- src/";
    assert_eq!(fix_tree_symbols(input), expected);
}

#[test]
fn test_fix_complex_box_drawing() {
    let input = "┌─┬─┐\n├─┼─┤\n└─┴─┘";
    // All corners and junctions become +, horizontal lines become -
    let expected = "+-+-+\n+-+-+\n+-+-+";
    assert_eq!(fix_tree_symbols(input), expected);
}

#[test]
fn test_is_box_drawing() {
    assert!(is_box_drawing('├'));
    assert!(is_box_drawing('─'));
    assert!(is_box_drawing('│'));
    assert!(is_box_drawing('└'));
    assert!(!is_box_drawing('a'));
    assert!(!is_box_drawing('1'));
    assert!(!is_box_drawing(' '));
}

#[test]
fn test_fix_checkmarks() {
    let input = "✓ Task done\n✗ Task failed\n✅ Complete\n❌ Error";
    let expected = "[x] Task done\n[x] Task failed\n[x] Complete\n[x] Error";
    assert_eq!(fix_tree_symbols(input), expected);
}

#[test]
fn test_fix_arrows() {
    let input = "a → b\nclick here ➜\nx ← y";
    let expected = "a -> b\nclick here ->\nx <- y";
    assert_eq!(fix_tree_symbols(input), expected);
}

#[test]
fn test_fix_accented_letters() {
    let input = "Café naïve résumé";
    let expected = "Cafe naive resume";
    assert_eq!(fix_tree_symbols(input), expected);
}

#[test]
fn test_fix_special_symbols() {
    let input = "© 2024\n™ Brand\n…continued\n°F";
    let expected = "(c) 2024\n(TM) Brand\n...continued\n degreesF";
    assert_eq!(fix_tree_symbols(input), expected);
}

#[test]
fn test_fix_math_symbols() {
    let input = "x ≥ 5\ny ≤ 10\na ≠ b\nx ÷ y";
    let expected = "x >= 5\ny <= 10\na != b\nx / y";
    assert_eq!(fix_tree_symbols(input), expected);
}

#[test]
fn test_fix_smart_quotes() {
    let input = "\u{201C}Hello\u{201D} \u{2018}world\u{2019}";
    let expected = "\"Hello\" 'world'";
    assert_eq!(fix_tree_symbols(input), expected);
}

#[test]
fn test_fix_dashes() {
    let input = "em—dash\nen–dash";
    let expected = "em--dash\nen-dash";
    assert_eq!(fix_tree_symbols(input), expected);
}

#[test]
fn test_fix_combined_unicode() {
    let input = "✓ naïve → café\n├── résumé.md\n© 2024";
    let expected = "[x] naive -> cafe\n+-- resume.md\n(c) 2024";
    assert_eq!(fix_tree_symbols(input), expected);
}

#[test]
fn box_drawing_block_has_exact_bounds() {
    assert!(is_box_drawing('\u{2500}'));
    assert!(is_box_drawing('\u{257F}'));
    assert!(!is_box_drawing('\u{24FF}'));
    assert!(!is_box_drawing('\u{2580}'));
}

#[test]
fn fix_of_empty_text_is_empty() {
    assert_eq!(fix_tree_symbols(""), "");
}

#[test]
fn tees_crosses_and_corners_become_plus() {
    assert_eq!(fix_tree_symbols("├┤┼┬┴╋└┘┌┐╰╯╭╮"), "++++++++++++++");
}

#[test]
fn bars_become_pipe_and_minus() {
    assert_eq!(fix_tree_symbols("│┃║"), "|||");
    assert_eq!(fix_tree_symbols("─━═"), "---");
}

#[test]
fn other_box_drawing_characters_become_plus() {
    // dashed bars, double corners and diagonals have no entry of their own
    assert_eq!(fix_tree_symbols("┄┅╔╗╱╲╳\u{257F}"), "++++++++");
}

#[test]
fn every_check_mark_becomes_bracketed_x() {
    assert_eq!(fix_tree_symbols("✓✔✅❌✗✘"), "[x][x][x][x][x][x]");
}

#[test]
fn every_arrow_has_its_ascii_form() {
    assert_eq!(fix_tree_symbols("→⇒⟶➔➜➡"), "->->->->->->");
    assert_eq!(fix_tree_symbols("←⇐⟵➘"), "<-<-<-<-");
    assert_eq!(fix_tree_symbols("⬆⇧↑"), "^^^");
    assert_eq!(fix_tree_symbols("⬇⇩↓"), "vvv");
}

#[test]
fn bullets_and_signs_have_their_ascii_form() {
    assert_eq!(fix_tree_symbols("•·●"), "***");
    assert_eq!(fix_tree_symbols("…"), "...");
    assert_eq!(fix_tree_symbols("©®™"), "(c)(R)(TM)");
    assert_eq!(fix_tree_symbols("§"), "S");
    assert_eq!(fix_tree_symbols("°"), " degrees");
    assert_eq!(fix_tree_symbols("⚠⚡"), "[!][!]");
}

#[test]
fn mathematical_signs_have_their_ascii_form() {
    assert_eq!(fix_tree_symbols("±"), "+/-");
    assert_eq!(fix_tree_symbols("×÷"), "x/");
    assert_eq!(fix_tree_symbols("≤≥≠≈"), "<=>=!=~=");
    assert_eq!(fix_tree_symbols("∞"), "infinity");
}

#[test]
fn greek_letters_are_spelled_out() {
    assert_eq!(fix_tree_symbols("α β γ δ π Σ µ"), "alpha beta gamma delta pi Sigma micro");
}

#[test]
fn accented_small_letters_lose_their_accent() {
    assert_eq!(fix_tree_symbols("áàâäãåā"), "aaaaaaa");
    assert_eq!(fix_tree_symbols("éèêëē"), "eeeee");
    assert_eq!(fix_tree_symbols("íìîïī"), "iiiii");
    assert_eq!(fix_tree_symbols("óòôöõō"), "oooooo");
    assert_eq!(fix_tree_symbols("úùûüū"), "uuuuu");
    assert_eq!(fix_tree_symbols("ýÿñç"), "yync");
}

#[test]
fn accented_capital_letters_lose_their_accent() {
    assert_eq!(fix_tree_symbols("ÁÀÂÄÃÅĀ"), "AAAAAAA");
    assert_eq!(fix_tree_symbols("ÉÈÊËĒ"), "EEEEE");
    assert_eq!(fix_tree_symbols("ÍÌÎÏĪ"), "IIIII");
    assert_eq!(fix_tree_symbols("ÓÒÔÖÕŌ"), "OOOOOO");
    assert_eq!(fix_tree_symbols("ÚÙÛÜŪ"), "UUUUU");
    assert_eq!(fix_tree_symbols("ÝŸÑÇ"), "YYNC");
}

#[test]
fn quotation_marks_become_straight() {
    assert_eq!(fix_tree_symbols("\u{201C}\u{201D}\u{201E}\u{201F}"), "\"\"\"\"");
    assert_eq!(fix_tree_symbols("\u{2018}\u{2019}\u{201A}\u{201B}"), "''''");
    assert_eq!(fix_tree_symbols("«»"), "\"\"");
}

#[test]
fn characters_without_an_entry_stay() {
    assert_eq!(fix_tree_symbols("Hello\0World"), "Hello\0World");
    assert_eq!(fix_tree_symbols("日本語 👋 🚧 ß μ"), "日本語 👋 🚧 ß μ");
    assert_eq!(fix_tree_symbols("tab\there\r\n"), "tab\there\r\n");
}

#[test]
fn fixing_twice_changes_nothing_more() {
    let inputs = [
        "├── src/\n│   └── main.rs\n",
        "✓ naïve → café\n├── résumé.md\n© 2024",
        "° ∞ — … ™ 🚧",
        "plain text",
        "unknown 日本語 stays, ┄ does not",
        "",
    ];
    for input in inputs {
        let once = fix_tree_symbols(input);
        assert_eq!(fix_tree_symbols(&once), once);
    }
}

#[test]
fn fix_may_make_the_text_longer_or_shorter_in_bytes() {
    // one character of three bytes becomes eight ASCII characters
    assert_eq!(fix_tree_symbols("∞").chars().count(), 8);
    // one character of three bytes becomes one ASCII character
    assert_eq!(fix_tree_symbols("─").len(), 1);
}
