use ferriskeys::input::key::with_code;
use ferriskeys::text::{
    ascii_digit, ascii_letter, chars_eq, chars_of, contains, decimal_string, lower_chars,
    matches_at, only_letters, starts_with, str_eq, to_ascii_lower,
};
use ferriskeys::ui::ui::{cased_label, display_parts};

fn chars(text: &str) -> Vec<char> {
    text.chars().collect()
}

#[test]
fn str_eq_compares_the_characters() {
    assert!(str_eq("", ""));
    assert!(str_eq("abc", "abc"));
    assert!(str_eq("\u{f0311} enter", "\u{f0311} enter"));
    assert!(!str_eq("abc", "abd"));
    assert!(!str_eq("abc", "ab"));
    assert!(!str_eq("ab", "abc"));
    assert!(!str_eq("abc", "Abc"));
    assert!(!str_eq("\u{e9}", "e\u{301}"));
    assert!(!str_eq("", " "));
}

#[test]
fn chars_of_gives_the_characters_in_order() {
    assert_eq!(chars_of(""), Vec::<char>::new());
    assert_eq!(chars_of("a\u{e9}\u{f0311}z"), vec!['a', '\u{e9}', '\u{f0311}', 'z']);
}

#[test]
fn lower_chars_folds_ascii_capitals_only() {
    assert_eq!(lower_chars("AbC xYz 09"), chars("abc xyz 09"));
    assert_eq!(lower_chars("@[`{"), chars("@[`{"));
    assert_eq!(lower_chars("\u{c9}cole"), chars("\u{c9}cole"));
    assert_eq!(to_ascii_lower('A'), 'a');
    assert_eq!(to_ascii_lower('Z'), 'z');
    assert_eq!(to_ascii_lower('a'), 'a');
    assert_eq!(to_ascii_lower('@'), '@');
    assert_eq!(to_ascii_lower('['), '[');
    assert_eq!(to_ascii_lower('\u{c9}'), '\u{c9}');
}

#[test]
fn chars_eq_compares_a_vector_with_a_text() {
    assert!(chars_eq(&chars(""), ""));
    assert!(chars_eq(&chars("left"), "left"));
    assert!(!chars_eq(&chars("left"), "lef"));
    assert!(!chars_eq(&chars("lef"), "left"));
    assert!(!chars_eq(&chars("left"), "lefT"));
    assert!(!chars_eq(&chars(""), "x"));
    assert!(!chars_eq(&chars("x"), ""));
}

#[test]
fn matches_at_looks_at_one_position() {
    let whole = chars("volume");
    assert!(matches_at(&whole, &chars("vol"), 0));
    assert!(matches_at(&whole, &chars("ume"), 3));
    assert!(matches_at(&whole, &chars(""), 6));
    assert!(matches_at(&whole, &chars("volume"), 0));
    assert!(!matches_at(&whole, &chars("vol"), 1));
    assert!(!matches_at(&whole, &chars("ume"), 4));
    assert!(!matches_at(&whole, &chars(""), 7));
    assert!(!matches_at(&whole, &chars("volumes"), 0));
    assert!(!matches_at(&whole, &chars("e"), usize::MAX));
}

#[test]
fn starts_with_and_contains_search_a_text() {
    let whole = chars("Keyboard");
    assert!(starts_with(&whole, "Key"));
    assert!(starts_with(&whole, ""));
    assert!(starts_with(&whole, "Keyboard"));
    assert!(!starts_with(&whole, "key"));
    assert!(!starts_with(&whole, "Keyboards"));
    assert!(!starts_with(&whole, "eyb"));
    assert!(contains(&whole, "Key"));
    assert!(contains(&whole, "board"));
    assert!(contains(&whole, "ybo"));
    assert!(contains(&whole, "d"));
    assert!(contains(&whole, ""));
    assert!(contains(&whole, "Keyboard"));
    assert!(!contains(&whole, "Keyboards"));
    assert!(!contains(&whole, "bored"));
    assert!(!contains(&whole, "K d"));
    assert!(contains(&chars(""), ""));
    assert!(!contains(&chars(""), "a"));
}

#[test]
fn digits_and_letters_are_ascii() {
    for c in "0123456789".chars() {
        assert!(ascii_digit(c));
        assert!(!ascii_letter(c));
    }
    for c in "azAZmM".chars() {
        assert!(ascii_letter(c));
        assert!(!ascii_digit(c));
    }
    for c in "/:@[`{ \u{e9}\u{661}".chars() {
        assert!(!ascii_digit(c), "{c}");
        assert!(!ascii_letter(c), "{c}");
    }
    assert!(only_letters(&chars("")));
    assert!(only_letters(&chars("abcXYZ")));
    assert!(!only_letters(&chars("abc1")));
    assert!(!only_letters(&chars("ab c")));
    assert!(!only_letters(&chars("\u{e9}")));
}

#[test]
fn decimal_string_writes_base_ten() {
    for n in [0u32, 1, 9, 10, 11, 99, 100, 101, 255, 1000, 65535, 4_000_000_000, u32::MAX] {
        assert_eq!(decimal_string(n), n.to_string());
    }
    assert_eq!(decimal_string(4294967295), "4294967295");
    assert_eq!(decimal_string(1200), "1200");
}

#[test]
fn with_code_puts_the_number_in_round_brackets() {
    assert_eq!(with_code("Unknown", 0), "Unknown(0)");
    assert_eq!(with_code("", 42), "(42)");
    assert_eq!(with_code("x y", 1000), "x y(1000)");
}

#[test]
fn display_parts_strips_splits_and_trims() {
    let parts = |text: &str| display_parts(text);
    assert_eq!(parts(""), (String::new(), String::new()));
    assert_eq!(parts("A"), (String::new(), "A".to_string()));
    assert_eq!(parts("KeyA"), (String::new(), "A".to_string()));
    assert_eq!(parts("Key x"), (String::new(), "x".to_string()));
    assert_eq!(parts("Keyx y"), ("x".to_string(), "y".to_string()));
    assert_eq!(parts("Num7"), (String::new(), "7".to_string()));
    assert_eq!(parts("Num "), ("Num".to_string(), String::new()));
    assert_eq!(parts("\u{21e7} shift"), ("\u{21e7}".to_string(), "shift".to_string()));
    assert_eq!(parts("\u{f037d} right "), ("\u{f037d}".to_string(), "right".to_string()));
    assert_eq!(parts("a  b  c "), ("a".to_string(), "b  c".to_string()));
    assert_eq!(parts("\ta\n b"), ("a".to_string(), "b".to_string()));
    assert_eq!(parts(" \u{a0} "), (String::new(), String::new()));
}

#[test]
fn cased_label_follows_the_lower_case_form() {
    assert_eq!(cased_label("f5", "f5", "F5".to_string()), "F5");
    assert_eq!(cased_label("text", "fine", "UPPER".to_string()), "UPPER");
    assert_eq!(cased_label("text", "Fine", "UPPER".to_string()), "text");
    assert_eq!(cased_label("text", "", "UPPER".to_string()), "text");
    assert_eq!(cased_label("text", "a f", "UPPER".to_string()), "text");
    assert_eq!(cased_label("", "f", String::new()), "");
}
