use ferriskeys::config::config::{
    has_color_length, hex, parse_category, parse_style, Color, Config, ConfigDocument, Style,
    StyleFields, StyleTable, DEFAULT_TIMEOUT_MS,
};
use ferriskeys::input::keymap::KeyCategory;

const WHITE: Color = Color { r: 255, g: 255, b: 255 };

fn all_categories() -> Vec<KeyCategory> {
    vec![
        KeyCategory::Escape,
        KeyCategory::Normal,
        KeyCategory::Numeric,
        KeyCategory::Modifier,
        KeyCategory::Editor,
        KeyCategory::Navigation,
        KeyCategory::Scrollable,
        KeyCategory::Space,
        KeyCategory::Symbol,
        KeyCategory::Unknown,
        KeyCategory::Function,
        KeyCategory::AltFunction,
        KeyCategory::Mouse,
    ]
}

fn no_fields() -> StyleFields {
    StyleFields {
        width: None,
        height: None,
        icon_size: None,
        text_size: None,
        bg_color: None,
        fg_color: None,
    }
}

fn empty_document() -> ConfigDocument {
    ConfigDocument { position: None, size: None, styles: vec![], timeout_ms: None }
}

#[test]
fn hex_reads_six_digits() {
    assert_eq!(hex("#3c3c3c"), Color { r: 0x3c, g: 0x3c, b: 0x3c });
    assert_eq!(hex("ffffff"), WHITE);
    assert_eq!(hex("#000000"), Color { r: 0, g: 0, b: 0 });
    assert_eq!(hex("#AA1111"), Color { r: 170, g: 17, b: 17 });
    assert_eq!(hex("#aBcDeF"), Color { r: 0xab, g: 0xcd, b: 0xef });
    assert_eq!(hex("#012345"), Color { r: 1, g: 0x23, b: 0x45 });
    assert_eq!(hex("###801155"), Color { r: 0x80, g: 0x11, b: 0x55 });
}

#[test]
fn hex_gives_white_for_another_length() {
    for text in ["", "#", "#fff", "#12345", "#1234567", "1e1e30#", " #1e1e30", "#1e1e30 "] {
        assert_eq!(hex(text), WHITE, "{text}");
    }
}

#[test]
fn hex_gives_255_for_a_pair_that_is_no_number() {
    assert_eq!(hex("#gg0000"), Color { r: 255, g: 0, b: 0 });
    assert_eq!(hex("#00zz00"), Color { r: 0, g: 255, b: 0 });
    assert_eq!(hex("#0000 1"), Color { r: 0, g: 0, b: 255 });
    assert_eq!(hex("#-10203"), Color { r: 255, g: 2, b: 3 });
    assert_eq!(hex("#0x1020"), Color { r: 255, g: 0x10, b: 0x20 });
    assert_eq!(hex("1#2#3#"), Color { r: 255, g: 255, b: 255 });
    assert_eq!(hex("\u{e9}\u{e9}\u{e9}"), Color { r: 255, g: 255, b: 255 });
    assert_eq!(hex("a\u{e9}bcd"), Color { r: 255, g: 255, b: 0xcd });
}

#[test]
fn hex_takes_a_plus_sign_before_a_single_digit() {
    assert_eq!(hex("#+a+b+c"), Color { r: 10, g: 11, b: 12 });
    assert_eq!(hex("+F0+00"), Color { r: 15, g: 255, b: 0 });
    assert_eq!(hex("#++1010"), Color { r: 255, g: 0x10, b: 0x10 });
}

#[test]
fn colour_length_is_counted_in_bytes_after_the_hashes() {
    assert!(has_color_length("#123456"));
    assert!(has_color_length("123456"));
    assert!(has_color_length("##zzzzzz"));
    assert!(has_color_length("\u{e9}\u{e9}\u{e9}"));
    assert!(!has_color_length("#12345"));
    assert!(!has_color_length("#1234567"));
    assert!(!has_color_length("\u{e9}\u{e9}\u{e9}\u{e9}\u{e9}\u{e9}"));
    assert!(!has_color_length(""));
    assert!(!has_color_length("######"));
}

#[test]
fn parse_category_knows_the_thirteen_names() {
    let names = [
        ("escape", KeyCategory::Escape),
        ("normal", KeyCategory::Normal),
        ("numeric", KeyCategory::Numeric),
        ("modifier", KeyCategory::Modifier),
        ("editor", KeyCategory::Editor),
        ("navigation", KeyCategory::Navigation),
        ("scrollable", KeyCategory::Scrollable),
        ("space", KeyCategory::Space),
        ("symbol", KeyCategory::Symbol),
        ("function", KeyCategory::Function),
        ("altfunction", KeyCategory::AltFunction),
        ("unknown", KeyCategory::Unknown),
        ("mouse", KeyCategory::Mouse),
    ];
    for (name, category) in names {
        assert_eq!(parse_category(name), Some(category));
        assert_eq!(parse_category(&name.to_uppercase()), Some(category));
    }
    assert_eq!(parse_category("AltFunction"), Some(KeyCategory::AltFunction));
    for name in ["", "alt_function", "mouse ", "keys", "norm", "normals"] {
        assert_eq!(parse_category(name), None, "{name}");
    }
}

#[test]
fn fallback_style_is_the_fixed_style() {
    assert_eq!(
        Config::fallback_style(),
        Style {
            width: 90_000,
            height: 90_000,
            icon_size: 0,
            text_size: 24_000,
            bg_color: hex("#3c3c3c"),
            fg_color: hex("ffffff"),
        }
    );
}

#[test]
fn fallback_styles_cover_every_category() {
    let styles = Config::fallback_styles();
    let expected = [
        (KeyCategory::Normal, 90, 90, 0, 20, "#1e1e30"),
        (KeyCategory::Modifier, 120, 90, 25, 18, "#32283c"),
        (KeyCategory::Editor, 90, 90, 18, 22, "#3f2e2e"),
        (KeyCategory::Navigation, 90, 90, 20, 22, "#2e3f2e"),
        (KeyCategory::Scrollable, 90, 90, 20, 22, "#2e3f2e"),
        (KeyCategory::Numeric, 90, 90, 0, 24, "#2e2e2e"),
        (KeyCategory::Symbol, 90, 90, 20, 24, "#3c2e2e"),
        (KeyCategory::Space, 260, 90, 20, 28, "#888888"),
        (KeyCategory::Escape, 90, 90, 20, 22, "#AA1111"),
        (KeyCategory::Unknown, 90, 90, 14, 22, "#555555"),
        (KeyCategory::Function, 90, 90, 14, 22, "#001155"),
        (KeyCategory::AltFunction, 90, 90, 14, 22, "#004488"),
        (KeyCategory::Mouse, 90, 90, 0, 24, "#801155"),
    ];
    assert_eq!(expected.len(), 13);
    for (category, width, height, icon, text, bg) in expected {
        let style = Style {
            width: width * 1000,
            height: height * 1000,
            icon_size: icon * 1000,
            text_size: text * 1000,
            bg_color: hex(bg),
            fg_color: WHITE,
        };
        assert_eq!(styles.get(category), Some(style));
        assert_eq!(styles.style_for(category), style);
        assert_eq!(Config::fallback_for(category), style);
    }
}

#[test]
fn a_style_table_keeps_the_last_style_set() {
    let mut styles = StyleTable::new();
    for category in all_categories() {
        assert_eq!(styles.get(category), None);
        assert_eq!(styles.style_for(category), Config::fallback_style());
    }
    let first = Style { width: 1, ..Config::fallback_style() };
    let second = Style { width: 2, ..Config::fallback_style() };
    styles.insert(KeyCategory::Mouse, first);
    assert_eq!(styles.get(KeyCategory::Mouse), Some(first));
    styles.insert(KeyCategory::Mouse, second);
    styles.insert(KeyCategory::Escape, first);
    assert_eq!(styles.get(KeyCategory::Mouse), Some(second));
    assert_eq!(styles.style_for(KeyCategory::Mouse), second);
    assert_eq!(styles.get(KeyCategory::Escape), Some(first));
    assert_eq!(styles.get(KeyCategory::Normal), None);
}

#[test]
fn parse_style_fills_what_is_missing_from_the_fallback() {
    for category in all_categories() {
        assert_eq!(parse_style(&no_fields(), category), Config::fallback_for(category));
    }
    let fields = StyleFields { width: Some(33_500), text_size: Some(0), ..no_fields() };
    let style = parse_style(&fields, KeyCategory::Modifier);
    assert_eq!(
        style,
        Style {
            width: 33_500,
            height: 90_000,
            icon_size: 25_000,
            text_size: 0,
            bg_color: hex("#32283c"),
            fg_color: WHITE,
        }
    );
}

#[test]
fn parse_style_reads_every_field() {
    let fields = StyleFields {
        width: Some(1),
        height: Some(2),
        icon_size: Some(3),
        text_size: Some(4),
        bg_color: Some("#010203".to_string()),
        fg_color: Some("0a0b0c".to_string()),
    };
    assert_eq!(
        parse_style(&fields, KeyCategory::Space),
        Style {
            width: 1,
            height: 2,
            icon_size: 3,
            text_size: 4,
            bg_color: Color { r: 1, g: 2, b: 3 },
            fg_color: Color { r: 10, g: 11, b: 12 },
        }
    );
}

#[test]
fn parse_style_replaces_a_misshapen_colour() {
    let fields = StyleFields {
        bg_color: Some("#12345".to_string()),
        fg_color: Some("red".to_string()),
        ..no_fields()
    };
    let style = parse_style(&fields, KeyCategory::Escape);
    assert_eq!(style.bg_color, hex("#AA1111"));
    assert_eq!(style.fg_color, WHITE);
    // Six characters that are no digits still count as a colour.
    let fields = StyleFields {
        bg_color: Some("#zzzzzz".to_string()),
        fg_color: Some("#00zz00".to_string()),
        ..no_fields()
    };
    let style = parse_style(&fields, KeyCategory::Escape);
    assert_eq!(style.bg_color, WHITE);
    assert_eq!(style.fg_color, Color { r: 0, g: 255, b: 0 });
}

#[test]
fn load_without_a_document_gives_the_defaults() {
    let config = Config::load("somewhere/config.toml", None, Some(77));
    assert_eq!(config.timeout_ms, 1200);
    assert_eq!(DEFAULT_TIMEOUT_MS, 1200);
    assert_eq!(config.position, [500_000, 500_000]);
    assert_eq!(config.size, [800_000, 120_000]);
    assert_eq!(config.path, "somewhere/config.toml");
    assert_eq!(config.last_modified, Some(77));
    for category in all_categories() {
        assert_eq!(config.styles.get(category), Some(Config::fallback_for(category)));
    }
    let config = Config::default();
    assert_eq!(config.path, "does-not-exist.toml");
    assert_eq!(config.last_modified, None);
    assert_eq!(config.timeout_ms, 1200);
}

#[test]
fn load_with_an_empty_document_gives_the_defaults() {
    let config = Config::load("c.toml", Some(&empty_document()), None);
    assert_eq!(config.timeout_ms, 1200);
    assert_eq!(config.position, [500_000, 500_000]);
    assert_eq!(config.size, [800_000, 120_000]);
    for category in all_categories() {
        assert_eq!(config.styles.get(category), Some(Config::fallback_for(category)));
    }
}

#[test]
fn load_reads_the_window() {
    let document = ConfigDocument {
        position: Some(vec![Some(-20_000), Some(1_500)]),
        size: Some(vec![Some(640_000), Some(100_250)]),
        ..empty_document()
    };
    let config = Config::load("c.toml", Some(&document), None);
    assert_eq!(config.position, [-20_000, 1_500]);
    assert_eq!(config.size, [640_000, 100_250]);
}

#[test]
fn load_replaces_an_element_that_is_no_number() {
    let document = ConfigDocument {
        position: Some(vec![None, Some(7)]),
        size: Some(vec![None, None]),
        ..empty_document()
    };
    let config = Config::load("c.toml", Some(&document), None);
    assert_eq!(config.position, [100_000, 7]);
    assert_eq!(config.size, [800_000, 120_000]);
    let document = ConfigDocument { position: Some(vec![Some(7), None]), ..empty_document() };
    let config = Config::load("c.toml", Some(&document), None);
    assert_eq!(config.position, [7, 100_000]);
}

#[test]
fn load_passes_over_an_array_that_has_not_two_elements() {
    for position in [vec![], vec![Some(1)], vec![Some(1), Some(2), Some(3)]] {
        let document = ConfigDocument {
            position: Some(position),
            size: Some(vec![Some(1)]),
            ..empty_document()
        };
        let config = Config::load("c.toml", Some(&document), None);
        assert_eq!(config.position, [500_000, 500_000]);
        assert_eq!(config.size, [800_000, 120_000]);
    }
}

#[test]
fn load_reads_the_timeout() {
    for (given, expected) in [
        (0, 0),
        (2_500, 2_500),
        (i64::MAX, i64::MAX as u64),
        (-1, u64::MAX),
        (-2, u64::MAX - 1),
        (i64::MIN, 1u64 << 63),
    ] {
        let document = ConfigDocument { timeout_ms: Some(given), ..empty_document() };
        assert_eq!(Config::load("c.toml", Some(&document), None).timeout_ms, expected);
    }
}

#[test]
fn load_reads_the_styles_in_their_order() {
    let document = ConfigDocument {
        styles: vec![
            ("normal".to_string(), StyleFields { width: Some(10_000), ..no_fields() }),
            ("buttons".to_string(), StyleFields { width: Some(1), ..no_fields() }),
            ("Mouse".to_string(), StyleFields { height: Some(30_000), ..no_fields() }),
            ("NORMAL".to_string(), StyleFields { height: Some(20_000), ..no_fields() }),
        ],
        ..empty_document()
    };
    let config = Config::load("c.toml", Some(&document), None);
    // The later table replaces the earlier one whole.
    assert_eq!(
        config.styles.get(KeyCategory::Normal),
        Some(Style { height: 20_000, ..Config::fallback_for(KeyCategory::Normal) })
    );
    assert_eq!(
        config.styles.get(KeyCategory::Mouse),
        Some(Style { height: 30_000, ..Config::fallback_for(KeyCategory::Mouse) })
    );
    assert_eq!(
        config.styles.get(KeyCategory::Space),
        Some(Config::fallback_for(KeyCategory::Space))
    );
}

#[test]
fn clone_copies_every_setting() {
    let document = ConfigDocument {
        position: Some(vec![Some(1), Some(2)]),
        size: Some(vec![Some(3), Some(4)]),
        styles: vec![("space".to_string(), StyleFields { width: Some(5), ..no_fields() })],
        timeout_ms: Some(6),
    };
    let config = Config::load("p.toml", Some(&document), Some(9));
    let copy = config.clone();
    assert_eq!(copy.position, [1, 2]);
    assert_eq!(copy.size, [3, 4]);
    assert_eq!(copy.timeout_ms, 6);
    assert_eq!(copy.path, "p.toml");
    assert_eq!(copy.last_modified, Some(9));
    for category in all_categories() {
        assert_eq!(copy.styles.get(category), config.styles.get(category));
    }
    assert_eq!(copy.styles.get(KeyCategory::Space).unwrap().width, 5);
}

#[test]
fn a_reload_is_due_on_a_signal_or_a_later_modification() {
    let known = Config::load("c.toml", None, Some(100));
    assert!(!known.reload_due(false, None));
    assert!(!known.reload_due(false, Some(99)));
    assert!(!known.reload_due(false, Some(100)));
    assert!(known.reload_due(false, Some(101)));
    assert!(known.reload_due(true, None));
    assert!(known.reload_due(true, Some(0)));
    let unknown = Config::load("c.toml", None, None);
    assert!(!unknown.reload_due(false, None));
    assert!(unknown.reload_due(false, Some(0)));
    assert!(unknown.reload_due(true, None));
}

#[test]
fn maybe_reload_reads_the_document_again_where_that_is_due() {
    let document = ConfigDocument { timeout_ms: Some(50), ..empty_document() };
    let mut config = Config::load("c.toml", None, Some(100));
    assert!(!config.maybe_reload(false, Some(100), Some(&document)));
    assert_eq!(config.timeout_ms, 1200);
    assert_eq!(config.last_modified, Some(100));
    assert!(config.maybe_reload(false, Some(150), Some(&document)));
    assert_eq!(config.timeout_ms, 50);
    assert_eq!(config.last_modified, Some(150));
    assert_eq!(config.path, "c.toml");
    assert!(!config.maybe_reload(false, Some(150), None));
    assert_eq!(config.timeout_ms, 50);
    // A signal reloads even where the time is unknown, and forgets the time.
    assert!(config.maybe_reload(true, None, None));
    assert_eq!(config.timeout_ms, 1200);
    assert_eq!(config.last_modified, None);
}
