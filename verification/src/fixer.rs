//! Rewrites the Unicode characters that have a plain counterpart into ASCII.
//!
//! The rewriting goes character by character and knows nothing of lines. A
//! character without an entry in the table stays as it is, so the result may
//! still hold characters that the validators flag: callers check the result
//! before they rely on it.

use vstd::prelude::*;
use vstd::string::*;

use crate::text::{in_box_drawing_block, is_ascii_char};

verus! {

/// What `c` is rewritten to. The first entry that names `c` decides. A
/// box-drawing character without an entry of its own becomes `+`, and every
/// other character without an entry stays.
pub open spec fn replacement(c: char) -> Seq<char> {
    match c {
        // Box drawing: tees, crosses and corners
        '├' | '┤' | '┼' | '┬' | '┴' | '╋' => seq!['+'],
        '└' | '┘' | '┌' | '┐' | '╰' | '╯' | '╭' | '╮' => seq!['+'],
        // Box drawing: vertical and horizontal bars
        '│' | '┃' | '║' => seq!['|'],
        '─' | '━' | '═' => seq!['-'],
        // Check marks and crosses
        '✓' | '✔' | '✅' | '❌' | '✗' | '✘' => "[x]"@,
        // Arrows
        '→' | '⇒' | '⟶' | '➔' | '➜' | '➡' => "->"@,
        '←' | '⇐' | '⟵' | '➘' => "<-"@,
        '⬆' | '⇧' | '↑' => seq!['^'],
        '⬇' | '⇩' | '↓' => seq!['v'],
        // Bullets and typographic signs
        '•' | '·' | '●' => seq!['*'],
        '…' => "..."@,
        '©' => "(c)"@,
        '®' => "(R)"@,
        '™' => "(TM)"@,
        '§' => seq!['S'],
        '°' => " degrees"@,
        // Mathematical signs
        '±' => "+/-"@,
        '×' => seq!['x'],
        '÷' => seq!['/'],
        '≤' => "<="@,
        '≥' => ">="@,
        '≠' => "!="@,
        '≈' => "~="@,
        '∞' => "infinity"@,
        // Signs of warning
        '⚠' | '⚡' => "[!]"@,
        // Greek letters
        'α' => "alpha"@,
        'β' => "beta"@,
        'γ' => "gamma"@,
        'δ' => "delta"@,
        'π' => "pi"@,
        'Σ' => "Sigma"@,
        'µ' => "micro"@,
        // Accented Latin letters
        'á' | 'à' | 'â' | 'ä' | 'ã' | 'å' | 'ā' => seq!['a'],
        'é' | 'è' | 'ê' | 'ë' | 'ē' => seq!['e'],
        'í' | 'ì' | 'î' | 'ï' | 'ī' => seq!['i'],
        'ó' | 'ò' | 'ô' | 'ö' | 'õ' | 'ō' => seq!['o'],
        'ú' | 'ù' | 'û' | 'ü' | 'ū' => seq!['u'],
        'ý' | 'ÿ' => seq!['y'],
        'ñ' => seq!['n'],
        'ç' => seq!['c'],
        'Á' | 'À' | 'Â' | 'Ä' | 'Ã' | 'Å' | 'Ā' => seq!['A'],
        'É' | 'È' | 'Ê' | 'Ë' | 'Ē' => seq!['E'],
        'Í' | 'Ì' | 'Î' | 'Ï' | 'Ī' => seq!['I'],
        'Ó' | 'Ò' | 'Ô' | 'Ö' | 'Õ' | 'Ō' => seq!['O'],
        'Ú' | 'Ù' | 'Û' | 'Ü' | 'Ū' => seq!['U'],
        'Ý' | 'Ÿ' => seq!['Y'],
        'Ñ' => seq!['N'],
        'Ç' => seq!['C'],
        // Quotation marks: curly double, curly single, angled
        '\u{201C}' | '\u{201D}' | '\u{201E}' | '\u{201F}' => seq!['"'],
        '\u{2018}' | '\u{2019}' | '\u{201A}' | '\u{201B}' => seq!['\''],
        '«' | '»' => seq!['"'],
        // Dashes
        '–' => seq!['-'],
        '—' => "--"@,
        // Box drawing without an entry of its own; everything else stays
        _ => if in_box_drawing_block(c) {
            seq!['+']
        } else {
            seq![c]
        },
    }
}

/// Whether `c` is rewritten to something else than itself.
pub open spec fn has_substitute(c: char) -> bool {
    replacement(c) != seq![c]
}

/// `text` with every character replaced, in order.
pub open spec fn fixed_text(text: Seq<char>) -> Seq<char> {
    text.flat_map(|c: char| replacement(c))
}

/// Whether `ch` lies in the Unicode block of box-drawing characters.
pub fn is_box_drawing(ch: char) -> (found: bool)
    ensures
        found == in_box_drawing_block(ch),
{
    let code: u32 = ch as u32;
    0x2500 <= code && code <= 0x257F
}

/// Replaces tree symbols and other common Unicode characters in `content`
/// with their ASCII counterparts.
pub fn fix_tree_symbols(content: &str) -> (fixed: String)
    ensures
        fixed@ == fixed_text(content@),
{
    let mut fixed = String::new();
    for ch in chars: content.chars()
        invariant
            chars.seq() == content@,
            fixed@ == fixed_text(content@.take(chars.index() as int)),
    {
        let ghost done = content@.take(chars.index() as int);
        let ghost before = fixed@;
        proof {
            lemma_fixed_text_push(done, ch);
            assert(content@.take(chars.index() + 1) =~= done.push(ch));
        }
        match ch {
            // Box drawing: tees, crosses and corners
            '├' | '┤' | '┼' | '┬' | '┴' | '╋' => fixed.push('+'),
            '└' | '┘' | '┌' | '┐' | '╰' | '╯' | '╭' | '╮' => fixed.push('+'),
            // Box drawing: vertical and horizontal bars
            '│' | '┃' | '║' => fixed.push('|'),
            '─' | '━' | '═' => fixed.push('-'),
            // Check marks and crosses
            '✓' | '✔' | '✅' | '❌' | '✗' | '✘' => fixed.append("[x]"),
            // Arrows
            '→' | '⇒' | '⟶' | '➔' | '➜' | '➡' => fixed.append("->"),
            '←' | '⇐' | '⟵' | '➘' => fixed.append("<-"),
            '⬆' | '⇧' | '↑' => fixed.push('^'),
            '⬇' | '⇩' | '↓' => fixed.push('v'),
            // Bullets and typographic signs
            '•' | '·' | '●' => fixed.push('*'),
            '…' => fixed.append("..."),
            '©' => fixed.append("(c)"),
            '®' => fixed.append("(R)"),
            '™' => fixed.append("(TM)"),
            '§' => fixed.push('S'),
            '°' => fixed.append(" degrees"),
            // Mathematical signs
            '±' => fixed.append("+/-"),
            '×' => fixed.push('x'),
            '÷' => fixed.push('/'),
            '≤' => fixed.append("<="),
            '≥' => fixed.append(">="),
            '≠' => fixed.append("!="),
            '≈' => fixed.append("~="),
            '∞' => fixed.append("infinity"),
            // Signs of warning
            '⚠' | '⚡' => fixed.append("[!]"),
            // Greek letters
            'α' => fixed.append("alpha"),
            'β' => fixed.append("beta"),
            'γ' => fixed.append("gamma"),
            'δ' => fixed.append("delta"),
            'π' => fixed.append("pi"),
            'Σ' => fixed.append("Sigma"),
            'µ' => fixed.append("micro"),
            // Accented Latin letters
            'á' | 'à' | 'â' | 'ä' | 'ã' | 'å' | 'ā' => fixed.push('a'),
            'é' | 'è' | 'ê' | 'ë' | 'ē' => fixed.push('e'),
            'í' | 'ì' | 'î' | 'ï' | 'ī' => fixed.push('i'),
            'ó' | 'ò' | 'ô' | 'ö' | 'õ' | 'ō' => fixed.push('o'),
            'ú' | 'ù' | 'û' | 'ü' | 'ū' => fixed.push('u'),
            'ý' | 'ÿ' => fixed.push('y'),
            'ñ' => fixed.push('n'),
            'ç' => fixed.push('c'),
            'Á' | 'À' | 'Â' | 'Ä' | 'Ã' | 'Å' | 'Ā' => fixed.push('A'),
            'É' | 'È' | 'Ê' | 'Ë' | 'Ē' => fixed.push('E'),
            'Í' | 'Ì' | 'Î' | 'Ï' | 'Ī' => fixed.push('I'),
            'Ó' | 'Ò' | 'Ô' | 'Ö' | 'Õ' | 'Ō' => fixed.push('O'),
            'Ú' | 'Ù' | 'Û' | 'Ü' | 'Ū' => fixed.push('U'),
            'Ý' | 'Ÿ' => fixed.push('Y'),
            'Ñ' => fixed.push('N'),
            'Ç' => fixed.push('C'),
            // Quotation marks: curly double, curly single, angled
            '\u{201C}' | '\u{201D}' | '\u{201E}' | '\u{201F}' => fixed.push('"'),
            '\u{2018}' | '\u{2019}' | '\u{201A}' | '\u{201B}' => fixed.push('\''),
            '«' | '»' => fixed.push('"'),
            // Dashes
            '–' => fixed.push('-'),
            '—' => fixed.append("--"),
            // Box drawing without an entry of its own
            _ if is_box_drawing(ch) => fixed.push('+'),
            // Everything else stays
            _ => fixed.push(ch),
        }
        assert(fixed@ =~= before + replacement(ch));
    }
    assert(content@.take(content@.len() as int) =~= content@);
    fixed
}

/// Rewriting a text that is one character longer adds that character's
/// replacement at the end.
pub proof fn lemma_fixed_text_push(text: Seq<char>, c: char)
    ensures
        fixed_text(text.push(c)) == fixed_text(text) + replacement(c),
{
    let f = |c: char| replacement(c);
    assert(text.push(c).map_values(f) =~= text.map_values(f).push(f(c)));
    text.map_values(f).lemma_flatten_push(f(c));
}

/// Rewriting goes piece by piece: a text made of two parts is rewritten to
/// the two rewritten parts.
pub proof fn lemma_fixed_text_concat(left: Seq<char>, right: Seq<char>)
    ensures
        fixed_text(left + right) == fixed_text(left) + fixed_text(right),
{
    let f = |c: char| replacement(c);
    assert((left + right).map_values(f) =~= left.map_values(f) + right.map_values(f));
    vstd::seq_lib::lemma_flatten_concat(left.map_values(f), right.map_values(f));
}

/// No ASCII character has an entry in the table.
pub proof fn lemma_ascii_has_no_substitute(c: char)
    requires
        is_ascii_char(c),
    ensures
        !has_substitute(c),
{
}

/// Whatever a character is rewritten to is left alone by a second pass:
/// the entries of the table are written in printable ASCII, and a character
/// without an entry is its own replacement.
pub proof fn lemma_replacement_is_final(c: char)
    ensures
        forall|j: int|
            0 <= j < replacement(c).len() ==> !has_substitute(#[trigger] replacement(c)[j]),
        has_substitute(c) ==> forall|j: int|
            0 <= j < replacement(c).len() ==> 32 <= (#[trigger] replacement(c)[j]) as u32 <= 126,
{
    reveal_strlit("[x]");
    reveal_strlit("->");
    reveal_strlit("<-");
    reveal_strlit("...");
    reveal_strlit("(c)");
    reveal_strlit("(R)");
    reveal_strlit("(TM)");
    reveal_strlit(" degrees");
    reveal_strlit("+/-");
    reveal_strlit("<=");
    reveal_strlit(">=");
    reveal_strlit("!=");
    reveal_strlit("~=");
    reveal_strlit("infinity");
    reveal_strlit("[!]");
    reveal_strlit("alpha");
    reveal_strlit("beta");
    reveal_strlit("gamma");
    reveal_strlit("delta");
    reveal_strlit("pi");
    reveal_strlit("Sigma");
    reveal_strlit("micro");
    reveal_strlit("--");
}

/// A text without a character that the table rewrites stays as it is.
pub proof fn lemma_fix_keeps_settled_text(text: Seq<char>)
    requires
        forall|i: int| 0 <= i < text.len() ==> !has_substitute(#[trigger] text[i]),
    ensures
        fixed_text(text) == text,
    decreases text.len(),
{
    if text.len() == 0 {
        assert(text.map_values(|c: char| replacement(c)) =~= Seq::empty());
        assert(fixed_text(text) =~= text);
    } else {
        lemma_fix_keeps_settled_text(text.drop_last());
        lemma_fixed_text_push(text.drop_last(), text.last());
        assert(text.drop_last().push(text.last()) =~= text);
        assert(!has_substitute(text[text.len() - 1]));
    }
}

/// The fixer leaves pure ASCII text as it is.
pub proof fn lemma_fix_keeps_ascii(text: Seq<char>)
    requires
        forall|i: int| 0 <= i < text.len() ==> is_ascii_char(#[trigger] text[i]),
    ensures
        fixed_text(text) == text,
{
    assert forall|i: int| 0 <= i < text.len() implies !has_substitute(#[trigger] text[i]) by {
        lemma_ascii_has_no_substitute(text[i]);
    }
    lemma_fix_keeps_settled_text(text);
}

/// Fixing is idempotent: a second pass over fixed text changes nothing. This
/// holds of every text, whether or not the table knows its characters.
pub proof fn lemma_fix_idempotent(text: Seq<char>)
    ensures
        fixed_text(fixed_text(text)) == fixed_text(text),
    decreases text.len(),
{
    if text.len() == 0 {
        assert(text.map_values(|c: char| replacement(c)) =~= Seq::empty());
        assert(fixed_text(text) =~= text);
    } else {
        let front = text.drop_last();
        let c = text.last();
        assert(front.push(c) =~= text);
        lemma_fix_idempotent(front);
        lemma_fixed_text_push(front, c);
        lemma_fixed_text_concat(fixed_text(front), replacement(c));
        lemma_replacement_is_final(c);
        lemma_fix_keeps_settled_text(replacement(c));
    }
}

/// What holds of every character of every replacement holds of every
/// character of the fixed text.
pub proof fn lemma_fixed_text_chars(text: Seq<char>, holds: spec_fn(char) -> bool)
    requires
        forall|i: int, j: int|
            0 <= i < text.len() && 0 <= j < replacement(text[i]).len() ==> holds(
                #[trigger] replacement(#[trigger] text[i])[j],
            ),
    ensures
        forall|k: int| 0 <= k < fixed_text(text).len() ==> holds(#[trigger] fixed_text(text)[k]),
    decreases text.len(),
{
    if text.len() == 0 {
        assert(text.map_values(|c: char| replacement(c)) =~= Seq::empty());
        assert(fixed_text(text) =~= text);
    } else {
        let front = text.drop_last();
        let c = text.last();
        assert(front.push(c) =~= text);
        assert forall|i: int, j: int|
            0 <= i < front.len() && 0 <= j < replacement(front[i]).len() implies holds(
            #[trigger] replacement(#[trigger] front[i])[j],
        ) by {
            assert(front[i] == text[i]);
        }
        lemma_fixed_text_chars(front, holds);
        lemma_fixed_text_push(front, c);
        assert forall|k: int| 0 <= k < fixed_text(text).len() implies holds(
            #[trigger] fixed_text(text)[k],
        ) by {
            if k >= fixed_text(front).len() {
                let j = k - fixed_text(front).len();
                assert(text[text.len() - 1] == c);
                assert(holds(replacement(text[text.len() - 1])[j]));
            }
        }
    }
}

} // verus!
