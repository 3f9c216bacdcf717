//! Label normalisation and the classification of labels into style categories.

use crate::text::{
    all_ascii_digits, all_ascii_letters, ascii_lower, chars_eq, contains, decimal_value,
    digits_from, has_substring, is_ascii_digit, lower_chars, only_letters, str_eq,
};
use crate::input::key::{key_name, Key};
use crate::input::layout::KeyboardLayout;
use vstd::prelude::*;
use vstd::string::*;

verus! {

/// The visual group that a key label is drawn in.
#[derive(Debug, Clone, Copy, PartialEq, Eq, Hash, Structural)]
pub enum KeyCategory {
    Escape,
    Normal,
    Numeric,
    Modifier,
    Editor,
    Navigation,
    Scrollable,
    Space,
    Symbol,
    Unknown,
    Function,
    AltFunction,
    Mouse,
}

/// Names and glyphs of mouse buttons (lower case).
pub open spec fn is_mouse_name(k: Seq<char>) -> bool {
    k == "\u{f037d}"@
        || k == "left"@
        || k == "right"@
        || k == "middle"@
}

/// Names of the Escape and Meta keys (lower case).
pub open spec fn is_escape_name(k: Seq<char>) -> bool {
    k == "meta"@
        || k == "esc"@
        || k == "escape"@
        || k == "\u{f0206} esc"@
}

/// Names of the modifier and lock keys (lower case).
pub open spec fn is_modifier_name(k: Seq<char>) -> bool {
    k == "ctrl"@
        || k == "control"@
        || k == "\u{2303} control"@
        || k == "shift"@
        || k == "\u{21e7} shift"@
        || k == "alt"@
        || k == "\u{2325} alt"@
        || k == "tab"@
        || k == "num"@
        || k == "numlock"@
        || k == "caps"@
}

/// Names of the editing keys (lower case).
pub open spec fn is_editor_name(k: Seq<char>) -> bool {
    k == "\u{f0e51}"@
        || k == "ps"@
        || k == "backspace"@
        || k == "delete"@
        || k == "del"@
        || k == "back"@
        || k == "ins"@
        || k == "insert"@
}

/// The four arrow glyphs.
pub open spec fn is_arrow_name(k: Seq<char>) -> bool {
    k == "\u{2191}"@
        || k == "\u{2193}"@
        || k == "\u{2190}"@
        || k == "\u{2192}"@
}

/// Names of the paging and scrolling keys (lower case).
pub open spec fn is_scroll_name(k: Seq<char>) -> bool {
    k == "home"@
        || k == "end"@
        || k == "pageup"@
        || k == "pagedown"@
        || k == "pgup"@
        || k == "pgdn"@
        || k == "scroll"@
        || k == "scrollock"@
}

/// Names of the space bar (lower case).
pub open spec fn is_space_name(k: Seq<char>) -> bool {
    k == "space"@
        || k == "\u{f1050} space"@
}

/// The punctuation characters that count as symbols.
pub open spec fn is_symbol_char(c: char) -> bool {
    c == '{' || c == '}' || c == '<' || c == '>' || c == '|' || c == '\u{a3}' || c == '$'
        || c == '%' || c == '^' || c == '&' || c == '_' || c == '\u{ac}' || c == '#' || c == '`'
        || c == '(' || c == ')' || c == '@' || c == '+' || c == '-' || c == '=' || c == '*'
        || c == '\\' || c == '/' || c == ',' || c == '.' || c == ';' || c == ':' || c == '!'
        || c == '\'' || c == '[' || c == ']' || c == '?' || c == '~' || c == '"'
}

/// A label that is one symbol character.
pub open spec fn is_symbol_name(k: Seq<char>) -> bool {
    k.len() == 1 && is_symbol_char(k[0])
}

/// The number after the `f` of a function-key label: an optional `+`, then one or
/// more ASCII digits. `None` where the text has another shape.
pub open spec fn function_number(rest: Seq<char>) -> Option<nat> {
    let digits = if rest.len() > 0 && rest[0] == '+' {
        rest.skip(1)
    } else {
        rest
    };
    if digits.len() > 0 && all_ascii_digits(digits) {
        Some(decimal_value(digits))
    } else {
        None
    }
}

/// `f` followed by a number from 1 to 24.
pub open spec fn is_function_name(k: Seq<char>) -> bool {
    &&& k.len() > 0
    &&& k[0] == 'f'
    &&& match function_number(k.skip(1)) {
        Some(n) => 1 <= n <= 24,
        None => false,
    }
}

/// A label that holds one of the media and system keywords.
pub open spec fn has_media_keyword(k: Seq<char>) -> bool {
    has_substring(k, "vol"@)
        || has_substring(k, "mute"@)
        || has_substring(k, "play"@)
        || has_substring(k, "prev"@)
        || has_substring(k, "next"@)
        || has_substring(k, "stop"@)
        || has_substring(k, "fn"@)
        || has_substring(k, "web"@)
        || has_substring(k, "mail"@)
        || has_substring(k, "app"@)
        || has_substring(k, "home"@)
}

/// The category of a label. The label is compared without regard to ASCII case,
/// and the groups are tried in this order; the first that matches decides.
pub open spec fn classify(label: Seq<char>) -> KeyCategory {
    let k = ascii_lower(label);
    if is_mouse_name(k) {
        KeyCategory::Mouse
    } else if is_escape_name(k) {
        KeyCategory::Escape
    } else if is_modifier_name(k) {
        KeyCategory::Modifier
    } else if is_editor_name(k) {
        KeyCategory::Editor
    } else if is_arrow_name(k) {
        KeyCategory::Navigation
    } else if is_scroll_name(k) {
        KeyCategory::Scrollable
    } else if is_space_name(k) {
        KeyCategory::Space
    } else if is_symbol_name(k) {
        KeyCategory::Symbol
    } else if is_function_name(k) {
        KeyCategory::Function
    } else if has_media_keyword(k) {
        KeyCategory::AltFunction
    } else if all_ascii_digits(k) {
        KeyCategory::Numeric
    } else if all_ascii_letters(k) {
        KeyCategory::Normal
    } else {
        KeyCategory::Unknown
    }
}

fn mouse_name(k: &Vec<char>) -> (r: bool)
    ensures
        r == is_mouse_name(k@),
{
    chars_eq(k, "\u{f037d}")
        || chars_eq(k, "left")
        || chars_eq(k, "right")
        || chars_eq(k, "middle")
}

fn escape_name(k: &Vec<char>) -> (r: bool)
    ensures
        r == is_escape_name(k@),
{
    chars_eq(k, "meta")
        || chars_eq(k, "esc")
        || chars_eq(k, "escape")
        || chars_eq(k, "\u{f0206} esc")
}

fn modifier_name(k: &Vec<char>) -> (r: bool)
    ensures
        r == is_modifier_name(k@),
{
    chars_eq(k, "ctrl")
        || chars_eq(k, "control")
        || chars_eq(k, "\u{2303} control")
        || chars_eq(k, "shift")
        || chars_eq(k, "\u{21e7} shift")
        || chars_eq(k, "alt")
        || chars_eq(k, "\u{2325} alt")
        || chars_eq(k, "tab")
        || chars_eq(k, "num")
        || chars_eq(k, "numlock")
        || chars_eq(k, "caps")
}

fn editor_name(k: &Vec<char>) -> (r: bool)
    ensures
        r == is_editor_name(k@),
{
    chars_eq(k, "\u{f0e51}")
        || chars_eq(k, "ps")
        || chars_eq(k, "backspace")
        || chars_eq(k, "delete")
        || chars_eq(k, "del")
        || chars_eq(k, "back")
        || chars_eq(k, "ins")
        || chars_eq(k, "insert")
}

fn arrow_name(k: &Vec<char>) -> (r: bool)
    ensures
        r == is_arrow_name(k@),
{
    chars_eq(k, "\u{2191}")
        || chars_eq(k, "\u{2193}")
        || chars_eq(k, "\u{2190}")
        || chars_eq(k, "\u{2192}")
}

fn scroll_name(k: &Vec<char>) -> (r: bool)
    ensures
        r == is_scroll_name(k@),
{
    chars_eq(k, "home")
        || chars_eq(k, "end")
        || chars_eq(k, "pageup")
        || chars_eq(k, "pagedown")
        || chars_eq(k, "pgup")
        || chars_eq(k, "pgdn")
        || chars_eq(k, "scroll")
        || chars_eq(k, "scrollock")
}

fn space_name(k: &Vec<char>) -> (r: bool)
    ensures
        r == is_space_name(k@),
{
    chars_eq(k, "space")
        || chars_eq(k, "\u{f1050} space")
}

fn symbol_char(c: char) -> (r: bool)
    ensures
        r == is_symbol_char(c),
{
    c == '{' || c == '}' || c == '<' || c == '>' || c == '|' || c == '\u{a3}' || c == '$'
        || c == '%' || c == '^' || c == '&' || c == '_' || c == '\u{ac}' || c == '#' || c == '`'
        || c == '(' || c == ')' || c == '@' || c == '+' || c == '-' || c == '=' || c == '*'
        || c == '\\' || c == '/' || c == ',' || c == '.' || c == ';' || c == ':' || c == '!'
        || c == '\'' || c == '[' || c == ']' || c == '?' || c == '~' || c == '"'
}

/// A longer run of digits spells a number that is no smaller.
proof fn lemma_decimal_value_grows(s: Seq<char>, n: int)
    requires
        0 <= n <= s.len(),
        all_ascii_digits(s),
    ensures
        decimal_value(s.take(n)) <= decimal_value(s),
    decreases s.len(),
{
    if n < s.len() {
        assert(s.drop_last().take(n) =~= s.take(n));
        lemma_decimal_value_grows(s.drop_last(), n);
    } else {
        assert(s.take(n) =~= s);
    }
}

fn function_name(k: &Vec<char>) -> (r: bool)
    ensures
        r == is_function_name(k@),
{
    if k.len() == 0 || k[0] != 'f' {
        return false;
    }
    let start: usize = if k.len() > 1 && k[1] == '+' {
        2
    } else {
        1
    };
    let ghost rest = k@.skip(1);
    let ghost digits = k@.skip(start as int);
    assert(start == 2 ==> rest.skip(1) =~= digits);
    if start >= k.len() || !digits_from(k, start) {
        return false;
    }
    assert(function_number(rest) == Some(decimal_value(digits)));
    let mut value: u32 = 0;
    let mut i: usize = start;
    while i < k.len()
        invariant
            start <= i <= k.len(),
            k@.len() > 0 && k@[0] == 'f',
            function_number(k@.skip(1)) == Some(decimal_value(digits)),
            digits == k@.skip(start as int),
            all_ascii_digits(digits),
            value == decimal_value(digits.take(i - start)),
            value <= 24,
        decreases k.len() - i,
    {
        let c = k[i];
        assert(is_ascii_digit(digits[i - start]));
        let d: u32 = (c as u8 - '0' as u8) as u32;
        proof {
            let longer = digits.take(i - start + 1);
            assert(longer.drop_last() =~= digits.take(i - start));
            assert(longer.last() == c);
            lemma_decimal_value_grows(digits, i - start + 1);
        }
        value = value * 10 + d;
        if value > 24 {
            return false;
        }
        i += 1;
    }
    assert(digits.take(i - start) =~= digits);
    value >= 1
}

fn media_keyword(k: &Vec<char>) -> (r: bool)
    ensures
        r == has_media_keyword(k@),
{
    contains(k, "vol")
        || contains(k, "mute")
        || contains(k, "play")
        || contains(k, "prev")
        || contains(k, "next")
        || contains(k, "stop")
        || contains(k, "fn")
        || contains(k, "web")
        || contains(k, "mail")
        || contains(k, "app")
        || contains(k, "home")
}

/// Determines the category of a key from its label.
pub fn category_for_key(key: &str) -> (category: KeyCategory)
    ensures
        category == classify(key@),
{
    let k = lower_chars(key);
    if mouse_name(&k) {
        KeyCategory::Mouse
    } else if escape_name(&k) {
        KeyCategory::Escape
    } else if modifier_name(&k) {
        KeyCategory::Modifier
    } else if editor_name(&k) {
        KeyCategory::Editor
    } else if arrow_name(&k) {
        KeyCategory::Navigation
    } else if scroll_name(&k) {
        KeyCategory::Scrollable
    } else if space_name(&k) {
        KeyCategory::Space
    } else if k.len() == 1 && symbol_char(k[0]) {
        KeyCategory::Symbol
    } else if function_name(&k) {
        KeyCategory::Function
    } else if media_keyword(&k) {
        KeyCategory::AltFunction
    } else if digits_from(&k, 0) {
        assert(k@.skip(0) =~= k@);
        KeyCategory::Numeric
    } else if only_letters(&k) {
        assert(k@.skip(0) =~= k@);
        KeyCategory::Normal
    } else {
        assert(k@.skip(0) =~= k@);
        KeyCategory::Unknown
    }
}

/// The display label of a raw mouse-button name: the three standard buttons get
/// the mouse glyph and a short name; any other text is kept.
pub open spec fn normalize_mouse_spec(raw: Seq<char>) -> Seq<char> {
    if raw == "MouseLeft"@ {
        "\u{f037d} left"@
    } else if raw == "MouseRight"@ {
        "\u{f037d} right "@
    } else if raw == "MouseMiddle"@ {
        "\u{f037d} middle"@
    } else {
        raw
    }
}

/// Converts a raw mouse-button name into its display label.
pub fn normalize_mouse_label(raw: &str) -> (label: &str)
    ensures
        label@ == normalize_mouse_spec(raw@),
{
    if str_eq(raw, "MouseLeft") {
        "\u{f037d} left"
    } else if str_eq(raw, "MouseRight") {
        "\u{f037d} right "
    } else if str_eq(raw, "MouseMiddle") {
        "\u{f037d} middle"
    } else {
        raw
    }
}

/// The display label of a raw key name: punctuation keys become their character,
/// named keys a glyph with a short name; any other text is kept.
pub open spec fn normalize_key_spec(raw: Seq<char>) -> Seq<char> {
    if raw == "Comma"@ {
        ","@
    } else if raw == "Period"@ || raw == "Dot"@ {
        "."@
    } else if raw == "SemiColon"@ {
        ";"@
    } else if raw == "Colon"@ {
        ":"@
    } else if raw == "BackQuote"@ {
        "'"@
    } else if raw == "Apostrophe"@ {
        "'"@
    } else if raw == "Minus"@ {
        "-"@
    } else if raw == "Equal"@ {
        "="@
    } else if raw == "Slash"@ {
        "/"@
    } else if raw == "BackSlash"@ || raw == "IntlBackslash"@ {
        "\\"@
    } else if raw == "Grave"@ {
        "`"@
    } else if raw == "LeftBracket"@ {
        "["@
    } else if raw == "RightBracket"@ {
        "]"@
    } else if raw == "Quote"@ {
        "#"@
    } else if raw == "Space"@ {
        "\u{f1050} space"@
    } else if raw == "Return"@ || raw == "Enter"@ {
        "\u{f0311} enter"@
    } else if raw == "Tab"@ {
        "Tab"@
    } else if raw == "Backspace"@ {
        "\u{f0b5c} back"@
    } else if raw == "Escape"@ {
        "\u{f0206} esc"@
    } else if raw == "ShiftLeft"@ || raw == "ShiftRight"@ {
        "\u{21e7} shift"@
    } else if raw == "ControlLeft"@ || raw == "ControlRight"@ {
        "\u{2303} control"@
    } else if raw == "Alt"@ || raw == "AltGr"@ {
        "\u{2325} alt"@
    } else if raw == "Meta"@ {
        "\u{e62a}"@
    } else if raw == "UpArrow"@ {
        "\u{2191}"@
    } else if raw == "DownArrow"@ {
        "\u{2193}"@
    } else if raw == "LeftArrow"@ {
        "\u{2190}"@
    } else if raw == "RightArrow"@ {
        "\u{2192}"@
    } else if raw == "Delete"@ {
        "\u{2326} del"@
    } else if raw == "Insert"@ {
        "\u{f090} ins"@
    } else if raw == "Home"@ {
        "\u{eb06} home"@
    } else if raw == "End"@ {
        "\u{f4f0} end"@
    } else if raw == "PageUp"@ {
        "\u{f0795} pgup"@
    } else if raw == "PageDown"@ {
        "\u{f0792} pgdn"@
    } else if raw == "NumLock"@ {
        "\u{f0341} numlock"@
    } else if raw == "ScrollLock"@ {
        "\u{f0e79} scroll"@
    } else if raw == "CapsLock"@ {
        "\u{21ea} Caps"@
    } else if raw == "PrintScreen"@ {
        "\u{f0e51} ps"@
    } else {
        raw
    }
}

/// Converts a raw key name into its display label.
pub fn normalize_key_label(raw: &str) -> (label: &str)
    ensures
        label@ == normalize_key_spec(raw@),
{
    if str_eq(raw, "Comma") {
        ","
    } else if str_eq(raw, "Period") || str_eq(raw, "Dot") {
        "."
    } else if str_eq(raw, "SemiColon") {
        ";"
    } else if str_eq(raw, "Colon") {
        ":"
    } else if str_eq(raw, "BackQuote") {
        "'"
    } else if str_eq(raw, "Apostrophe") {
        "'"
    } else if str_eq(raw, "Minus") {
        "-"
    } else if str_eq(raw, "Equal") {
        "="
    } else if str_eq(raw, "Slash") {
        "/"
    } else if str_eq(raw, "BackSlash") || str_eq(raw, "IntlBackslash") {
        "\\"
    } else if str_eq(raw, "Grave") {
        "`"
    } else if str_eq(raw, "LeftBracket") {
        "["
    } else if str_eq(raw, "RightBracket") {
        "]"
    } else if str_eq(raw, "Quote") {
        "#"
    } else if str_eq(raw, "Space") {
        "\u{f1050} space"
    } else if str_eq(raw, "Return") || str_eq(raw, "Enter") {
        "\u{f0311} enter"
    } else if str_eq(raw, "Tab") {
        "Tab"
    } else if str_eq(raw, "Backspace") {
        "\u{f0b5c} back"
    } else if str_eq(raw, "Escape") {
        "\u{f0206} esc"
    } else if str_eq(raw, "ShiftLeft") || str_eq(raw, "ShiftRight") {
        "\u{21e7} shift"
    } else if str_eq(raw, "ControlLeft") || str_eq(raw, "ControlRight") {
        "\u{2303} control"
    } else if str_eq(raw, "Alt") || str_eq(raw, "AltGr") {
        "\u{2325} alt"
    } else if str_eq(raw, "Meta") {
        "\u{e62a}"
    } else if str_eq(raw, "UpArrow") {
        "\u{2191}"
    } else if str_eq(raw, "DownArrow") {
        "\u{2193}"
    } else if str_eq(raw, "LeftArrow") {
        "\u{2190}"
    } else if str_eq(raw, "RightArrow") {
        "\u{2192}"
    } else if str_eq(raw, "Delete") {
        "\u{2326} del"
    } else if str_eq(raw, "Insert") {
        "\u{f090} ins"
    } else if str_eq(raw, "Home") {
        "\u{eb06} home"
    } else if str_eq(raw, "End") {
        "\u{f4f0} end"
    } else if str_eq(raw, "PageUp") {
        "\u{f0795} pgup"
    } else if str_eq(raw, "PageDown") {
        "\u{f0792} pgdn"
    } else if str_eq(raw, "NumLock") {
        "\u{f0341} numlock"
    } else if str_eq(raw, "ScrollLock") {
        "\u{f0e79} scroll"
    } else if str_eq(raw, "CapsLock") {
        "\u{21ea} Caps"
    } else if str_eq(raw, "PrintScreen") {
        "\u{f0e51} ps"
    } else {
        raw
    }
}

/// Normalising a mouse label twice gives what normalising it once gives.
pub proof fn lemma_normalize_mouse_idempotent(raw: Seq<char>)
    ensures
        normalize_mouse_spec(normalize_mouse_spec(raw)) == normalize_mouse_spec(raw),
{
    reveal_strlit("MouseLeft");
    reveal_strlit("MouseRight");
    reveal_strlit("MouseMiddle");
    reveal_strlit("\u{f037d} left");
    reveal_strlit("\u{f037d} right ");
    reveal_strlit("\u{f037d} middle");
}

/// A label that does not begin with an ASCII capital is no raw key name, so
/// normalising keeps it.
proof fn lemma_normalize_key_keeps_plain(label: Seq<char>)
    requires
        label.len() == 0 || !('A' <= label[0] <= 'Z'),
    ensures
        normalize_key_spec(label) == label,
{
    reveal_strlit("Comma");
    reveal_strlit("Period");
    reveal_strlit("Dot");
    reveal_strlit("SemiColon");
    reveal_strlit("Colon");
    reveal_strlit("BackQuote");
    reveal_strlit("Apostrophe");
    reveal_strlit("Minus");
    reveal_strlit("Equal");
    reveal_strlit("Slash");
    reveal_strlit("BackSlash");
    reveal_strlit("IntlBackslash");
    reveal_strlit("Grave");
    reveal_strlit("LeftBracket");
    reveal_strlit("RightBracket");
    reveal_strlit("Quote");
    reveal_strlit("Space");
    reveal_strlit("Return");
    reveal_strlit("Enter");
    reveal_strlit("Tab");
    reveal_strlit("Backspace");
    reveal_strlit("Escape");
    reveal_strlit("ShiftLeft");
    reveal_strlit("ShiftRight");
    reveal_strlit("ControlLeft");
    reveal_strlit("ControlRight");
    reveal_strlit("Alt");
    reveal_strlit("AltGr");
    reveal_strlit("Meta");
    reveal_strlit("UpArrow");
    reveal_strlit("DownArrow");
    reveal_strlit("LeftArrow");
    reveal_strlit("RightArrow");
    reveal_strlit("Delete");
    reveal_strlit("Insert");
    reveal_strlit("Home");
    reveal_strlit("End");
    reveal_strlit("PageUp");
    reveal_strlit("PageDown");
    reveal_strlit("NumLock");
    reveal_strlit("ScrollLock");
    reveal_strlit("CapsLock");
    reveal_strlit("PrintScreen");
}

proof fn lemma_normalize_key_keeps_tab()
    ensures
        normalize_key_spec("Tab"@) == "Tab"@,
{
    let tab = "Tab"@;
    reveal_strlit("Tab");
    assert(tab.len() == 3 && tab[0] == 'T');
    assert(tab != "Alt"@) by {
        reveal_strlit("Alt");
        assert("Alt"@[0] == 'A');
    }
    assert(tab != "End"@) by {
        reveal_strlit("End");
        assert("End"@[0] == 'E');
    }
    assert(tab != "Dot"@) by {
        reveal_strlit("Dot");
        assert("Dot"@[0] == 'D');
    }
    lemma_normalize_key_keeps_long(tab);
}

/// Apart from `Alt`, `End`, `Dot` and `Tab`, every raw key name has four
/// characters or more.
proof fn lemma_normalize_key_keeps_long(label: Seq<char>)
    requires
        label.len() < 4,
        label != "Alt"@,
        label != "End"@,
        label != "Dot"@,
    ensures
        normalize_key_spec(label) == label,
{
    reveal_strlit("Comma");
    reveal_strlit("Period");
    reveal_strlit("Dot");
    reveal_strlit("SemiColon");
    reveal_strlit("Colon");
    reveal_strlit("BackQuote");
    reveal_strlit("Apostrophe");
    reveal_strlit("Minus");
    reveal_strlit("Equal");
    reveal_strlit("Slash");
    reveal_strlit("BackSlash");
    reveal_strlit("IntlBackslash");
    reveal_strlit("Grave");
    reveal_strlit("LeftBracket");
    reveal_strlit("RightBracket");
    reveal_strlit("Quote");
    reveal_strlit("Space");
    reveal_strlit("Return");
    reveal_strlit("Enter");
    reveal_strlit("Tab");
    reveal_strlit("Backspace");
    reveal_strlit("Escape");
    reveal_strlit("ShiftLeft");
    reveal_strlit("ShiftRight");
    reveal_strlit("ControlLeft");
    reveal_strlit("ControlRight");
    reveal_strlit("Alt");
    reveal_strlit("AltGr");
    reveal_strlit("Meta");
    reveal_strlit("UpArrow");
    reveal_strlit("DownArrow");
    reveal_strlit("LeftArrow");
    reveal_strlit("RightArrow");
    reveal_strlit("Delete");
    reveal_strlit("Insert");
    reveal_strlit("Home");
    reveal_strlit("End");
    reveal_strlit("PageUp");
    reveal_strlit("PageDown");
    reveal_strlit("NumLock");
    reveal_strlit("ScrollLock");
    reveal_strlit("CapsLock");
    reveal_strlit("PrintScreen");
}

/// Normalising a key label twice gives what normalising it once gives.
pub proof fn lemma_normalize_key_idempotent(raw: Seq<char>)
    ensures
        normalize_key_spec(normalize_key_spec(raw)) == normalize_key_spec(raw),
{
    let once = normalize_key_spec(raw);
    if once != raw {
        reveal_strlit(",");
        reveal_strlit(".");
        reveal_strlit(";");
        reveal_strlit(":");
        reveal_strlit("'");
        reveal_strlit("-");
        reveal_strlit("=");
        reveal_strlit("/");
        reveal_strlit("\\");
        reveal_strlit("`");
        reveal_strlit("[");
        reveal_strlit("]");
        reveal_strlit("#");
        reveal_strlit("\u{f1050} space");
        reveal_strlit("\u{f0311} enter");
        reveal_strlit("\u{f0b5c} back");
        reveal_strlit("\u{f0206} esc");
        reveal_strlit("\u{21e7} shift");
        reveal_strlit("\u{2303} control");
        reveal_strlit("\u{2325} alt");
        reveal_strlit("\u{e62a}");
        reveal_strlit("\u{2191}");
        reveal_strlit("\u{2193}");
        reveal_strlit("\u{2190}");
        reveal_strlit("\u{2192}");
        reveal_strlit("\u{2326} del");
        reveal_strlit("\u{f090} ins");
        reveal_strlit("\u{eb06} home");
        reveal_strlit("\u{f4f0} end");
        reveal_strlit("\u{f0795} pgup");
        reveal_strlit("\u{f0792} pgdn");
        reveal_strlit("\u{f0341} numlock");
        reveal_strlit("\u{f0e79} scroll");
        reveal_strlit("\u{21ea} Caps");
        reveal_strlit("\u{f0e51} ps");
        if once == "Tab"@ {
            lemma_normalize_key_keeps_tab();
        } else {
            assert(once.len() > 0 && !('A' <= once[0] <= 'Z'));
            lemma_normalize_key_keeps_plain(once);
        }
    }
}

/// The label of a key pressed with Shift on a United States keyboard: the digit
/// row and some punctuation keys give their shifted symbol, any other key the
/// normalised name of the key.
pub open spec fn us_label(key: Key) -> Seq<char> {
    match key {
        Key::Num1 => "!"@,
        Key::Num2 => "@"@,
        Key::Num3 => "#"@,
        Key::Num4 => "$"@,
        Key::Num5 => "%"@,
        Key::Num6 => "^"@,
        Key::Num7 => "&"@,
        Key::Num8 => "*"@,
        Key::Num9 => "("@,
        Key::Num0 => ")"@,
        Key::Minus => "_"@,
        Key::Equal => "+"@,
        Key::BackQuote => "~"@,
        Key::Quote => "\""@,
        Key::BackSlash | Key::IntlBackslash => "|"@,
        _ => normalize_key_spec(key_name(key)),
    }
}

/// The label of a key pressed with Shift on a United Kingdom keyboard.
pub open spec fn uk_label(key: Key) -> Seq<char> {
    match key {
        Key::Num1 => "!"@,
        Key::Num2 => "\""@,
        Key::Num3 => "\u{a3}"@,
        Key::Num4 => "$"@,
        Key::Num5 => "%"@,
        Key::Num6 => "^"@,
        Key::Num7 => "&"@,
        Key::Num8 => "*"@,
        Key::Num9 => "("@,
        Key::Num0 => ")"@,
        Key::Minus => "_"@,
        Key::Equal => "+"@,
        Key::Quote => "\""@,
        Key::BackSlash | Key::IntlBackslash => "|"@,
        _ => normalize_key_spec(key_name(key)),
    }
}

/// The label of a key pressed with Shift. A layout without a table of its own
/// is read as United States.
pub open spec fn shifted_label(key: Key, layout: KeyboardLayout) -> Seq<char> {
    match layout {
        KeyboardLayout::UnitedKingdom => uk_label(key),
        _ => us_label(key),
    }
}

fn normalized_name(key: Key) -> (label: String)
    ensures
        label@ == normalize_key_spec(key_name(key)),
{
    let name = key.name();
    String::from_str(normalize_key_label(name.as_str()))
}

fn resolve_us_label(key: Key) -> (label: String)
    ensures
        label@ == us_label(key),
{
    match key {
        Key::Num1 => String::from_str("!"),
        Key::Num2 => String::from_str("@"),
        Key::Num3 => String::from_str("#"),
        Key::Num4 => String::from_str("$"),
        Key::Num5 => String::from_str("%"),
        Key::Num6 => String::from_str("^"),
        Key::Num7 => String::from_str("&"),
        Key::Num8 => String::from_str("*"),
        Key::Num9 => String::from_str("("),
        Key::Num0 => String::from_str(")"),
        Key::Minus => String::from_str("_"),
        Key::Equal => String::from_str("+"),
        Key::BackQuote => String::from_str("~"),
        Key::Quote => String::from_str("\""),
        Key::BackSlash | Key::IntlBackslash => String::from_str("|"),
        _ => normalized_name(key),
    }
}

fn resolve_uk_label(key: Key) -> (label: String)
    ensures
        label@ == uk_label(key),
{
    match key {
        Key::Num1 => String::from_str("!"),
        Key::Num2 => String::from_str("\""),
        Key::Num3 => String::from_str("\u{a3}"),
        Key::Num4 => String::from_str("$"),
        Key::Num5 => String::from_str("%"),
        Key::Num6 => String::from_str("^"),
        Key::Num7 => String::from_str("&"),
        Key::Num8 => String::from_str("*"),
        Key::Num9 => String::from_str("("),
        Key::Num0 => String::from_str(")"),
        Key::Minus => String::from_str("_"),
        Key::Equal => String::from_str("+"),
        Key::Quote => String::from_str("\""),
        Key::BackSlash | Key::IntlBackslash => String::from_str("|"),
        _ => normalized_name(key),
    }
}

/// Resolves a key pressed with Shift to its label on the given layout.
pub fn resolve_key_label(key: Key, layout: &KeyboardLayout) -> (label: String)
    ensures
        label@ == shifted_label(key, *layout),
{
    match layout {
        KeyboardLayout::UnitedKingdom => resolve_uk_label(key),
        KeyboardLayout::UnitedStates => resolve_us_label(key),
        KeyboardLayout::Other(_) => resolve_us_label(key),
    }
}

} // verus!
