//! Styles, colours and the overlay's settings, with the fallbacks that apply
//! where a document leaves a value out.

use crate::input::keymap::KeyCategory;
use crate::text::{ascii_lower, chars_eq, lower_chars};
use vstd::prelude::*;
use vstd::string::*;
use vstd::utf8::encode_utf8;

verus! {

/// An opaque colour.
#[derive(Debug, Clone, Copy, PartialEq, Eq, Structural)]
pub struct Color {
    pub r: u8,
    pub g: u8,
    pub b: u8,
}

/// How the keys of one category are drawn. Lengths and font sizes are in
/// thousandths of a point.
#[derive(Debug, Clone, Copy, PartialEq, Eq, Structural)]
pub struct Style {
    /// Width of the key box.
    pub width: u32,
    /// Height of the key box.
    pub height: u32,
    /// Font size of the icon glyph.
    pub icon_size: u32,
    /// Font size of the label.
    pub text_size: u32,
    /// Background colour of the key box.
    pub bg_color: Color,
    /// Colour of the icon and the label.
    pub fg_color: Color,
}

/// White.
pub open spec fn white() -> Color {
    Color { r: 255, g: 255, b: 255 }
}

/// The style of a category that the table has no entry for.
pub open spec fn fallback_style_spec() -> Style {
    Style {
        width: 90_000,
        height: 90_000,
        icon_size: 0,
        text_size: 24_000,
        bg_color: Color { r: 0x3c, g: 0x3c, b: 0x3c },
        fg_color: white(),
    }
}

/// The position of a category in the table.
spec fn category_index(category: KeyCategory) -> int {
    match category {
        KeyCategory::Escape => 0,
        KeyCategory::Normal => 1,
        KeyCategory::Numeric => 2,
        KeyCategory::Modifier => 3,
        KeyCategory::Editor => 4,
        KeyCategory::Navigation => 5,
        KeyCategory::Scrollable => 6,
        KeyCategory::Space => 7,
        KeyCategory::Symbol => 8,
        KeyCategory::Unknown => 9,
        KeyCategory::Function => 10,
        KeyCategory::AltFunction => 11,
        KeyCategory::Mouse => 12,
    }
}

fn index_of(category: KeyCategory) -> (i: usize)
    ensures
        i == category_index(category),
{
    match category {
        KeyCategory::Escape => 0,
        KeyCategory::Normal => 1,
        KeyCategory::Numeric => 2,
        KeyCategory::Modifier => 3,
        KeyCategory::Editor => 4,
        KeyCategory::Navigation => 5,
        KeyCategory::Scrollable => 6,
        KeyCategory::Space => 7,
        KeyCategory::Symbol => 8,
        KeyCategory::Unknown => 9,
        KeyCategory::Function => 10,
        KeyCategory::AltFunction => 11,
        KeyCategory::Mouse => 12,
    }
}

/// A map from category to style, with one slot per category.
#[derive(Debug, Clone, Copy)]
pub struct StyleTable {
    slots: [Option<Style>; 13],
}

impl View for StyleTable {
    type V = Map<KeyCategory, Style>;

    open spec fn view(&self) -> Map<KeyCategory, Style> {
        Map::new(
            |c: KeyCategory| self.slot(c) is Some,
            |c: KeyCategory| self.slot(c)->0,
        )
    }
}

/// The style that a map of styles gives a category: its entry, or the fallback
/// style where it has none.
pub open spec fn style_in(styles: Map<KeyCategory, Style>, category: KeyCategory) -> Style {
    if styles.contains_key(category) {
        styles[category]
    } else {
        fallback_style_spec()
    }
}

impl StyleTable {
    /// What the table holds for a category.
    pub closed spec fn slot(&self, category: KeyCategory) -> Option<Style> {
        self.slots[category_index(category)]
    }

    /// A table without entries.
    pub fn new() -> (table: StyleTable)
        ensures
            table@ == Map::<KeyCategory, Style>::empty(),
    {
        let table = StyleTable {
            slots: [None, None, None, None, None, None, None, None, None, None, None, None, None],
        };
        assert(table@ =~= Map::<KeyCategory, Style>::empty());
        table
    }

    /// The entry of a category, if there is one.
    pub fn get(&self, category: KeyCategory) -> (style: Option<Style>)
        ensures
            style == (if self@.contains_key(category) {
                Some(self@[category])
            } else {
                None
            }),
    {
        self.slots[index_of(category)]
    }

    /// Sets the entry of a category, replacing an earlier one.
    pub fn insert(&mut self, category: KeyCategory, style: Style)
        ensures
            final(self)@ == old(self)@.insert(category, style),
    {
        self.slots[index_of(category)] = Some(style);
        assert(self@ =~= old(self)@.insert(category, style)) by {
            assert forall|c: KeyCategory| c != category implies self.slot(c) == old(self).slot(
                c,
            ) by {}
        }
    }

    /// The style to draw a category with.
    pub fn style_for(&self, category: KeyCategory) -> (style: Style)
        ensures
            style == style_in(self@, category),
    {
        match self.slots[index_of(category)] {
            Some(style) => style,
            None => Config::fallback_style(),
        }
    }
}

/// A text without the `#` characters that it begins with, as UTF-8 bytes.
pub open spec fn without_hashes(text: Seq<u8>) -> Seq<u8>
    decreases text.len(),
{
    if text.len() > 0 && text[0] == 0x23 {
        without_hashes(text.skip(1))
    } else {
        text
    }
}

/// The value of a hexadecimal digit in either case.
pub open spec fn hex_digit(b: u8) -> Option<u8> {
    if 0x30 <= b <= 0x39 {
        Some((b - 0x30) as u8)
    } else if 0x61 <= b <= 0x66 {
        Some((b - 0x61 + 10) as u8)
    } else if 0x41 <= b <= 0x46 {
        Some((b - 0x41 + 10) as u8)
    } else {
        None
    }
}

/// The number that two bytes spell in base sixteen: two digits, or a `+` and
/// one digit.
pub open spec fn hex_pair(high: u8, low: u8) -> Option<u8> {
    if high == 0x2b {
        hex_digit(low)
    } else {
        match (hex_digit(high), hex_digit(low)) {
            (Some(h), Some(l)) => Some((16 * h + l) as u8),
            _ => None,
        }
    }
}

/// A colour channel from two bytes; 255 where they spell no number.
pub open spec fn channel(high: u8, low: u8) -> u8 {
    match hex_pair(high, low) {
        Some(value) => value,
        None => 255,
    }
}

/// Whether a text, after its leading `#` characters, is six bytes long.
pub open spec fn is_color_text(text: Seq<u8>) -> bool {
    without_hashes(text).len() == 6
}

/// The colour that a text names: `RRGGBB`, with any number of `#` before it.
/// White where the text has another length.
pub open spec fn hex_color(text: Seq<u8>) -> Color {
    let digits = without_hashes(text);
    if digits.len() != 6 {
        white()
    } else {
        Color {
            r: channel(digits[0], digits[1]),
            g: channel(digits[2], digits[3]),
            b: channel(digits[4], digits[5]),
        }
    }
}

fn digit_value(b: u8) -> (value: Option<u8>)
    ensures
        value == hex_digit(b),
{
    if 0x30 <= b && b <= 0x39 {
        Some(b - 0x30)
    } else if 0x61 <= b && b <= 0x66 {
        Some(b - 0x61 + 10)
    } else if 0x41 <= b && b <= 0x46 {
        Some(b - 0x41 + 10)
    } else {
        None
    }
}

fn channel_value(high: u8, low: u8) -> (value: u8)
    ensures
        value == channel(high, low),
{
    if high == 0x2b {
        match digit_value(low) {
            Some(value) => value,
            None => 255,
        }
    } else {
        match (digit_value(high), digit_value(low)) {
            (Some(h), Some(l)) => 16 * h + l,
            _ => 255,
        }
    }
}

/// Counts the `#` characters that a text begins with.
fn count_hashes(bytes: &[u8]) -> (start: usize)
    ensures
        start <= bytes@.len(),
        without_hashes(bytes@) == bytes@.skip(start as int),
{
    let mut start: usize = 0;
    assert(bytes@.skip(0) =~= bytes@);
    while start < bytes.len() && bytes[start] == 0x23
        invariant
            start <= bytes@.len(),
            without_hashes(bytes@) == without_hashes(bytes@.skip(start as int)),
        decreases bytes@.len() - start,
    {
        assert(bytes@.skip(start as int).skip(1) =~= bytes@.skip(start as int + 1));
        start += 1;
    }
    start
}

/// Whether a text has the length of a colour: six bytes after its leading `#`
/// characters.
pub fn has_color_length(text: &str) -> (r: bool)
    ensures
        r == is_color_text(text.spec_bytes()),
{
    let bytes = text.as_bytes();
    let start = count_hashes(bytes);
    bytes.len() - start == 6
}

/// Reads a colour written as `#RRGGBB`. A text of another length gives white; a
/// pair of characters that is no number gives 255 for its channel.
pub fn hex(text: &str) -> (color: Color)
    ensures
        color == hex_color(text.spec_bytes()),
{
    let bytes = text.as_bytes();
    let start = count_hashes(bytes);
    if bytes.len() - start != 6 {
        return Color { r: 255, g: 255, b: 255 };
    }
    Color {
        r: channel_value(bytes[start], bytes[start + 1]),
        g: channel_value(bytes[start + 2], bytes[start + 3]),
        b: channel_value(bytes[start + 4], bytes[start + 5]),
    }
}

/// The category that a name stands for, without regard to ASCII case.
pub open spec fn category_named(name: Seq<char>) -> Option<KeyCategory> {
    let k = ascii_lower(name);
    if k == "escape"@ {
        Some(KeyCategory::Escape)
    } else if k == "normal"@ {
        Some(KeyCategory::Normal)
    } else if k == "numeric"@ {
        Some(KeyCategory::Numeric)
    } else if k == "modifier"@ {
        Some(KeyCategory::Modifier)
    } else if k == "editor"@ {
        Some(KeyCategory::Editor)
    } else if k == "navigation"@ {
        Some(KeyCategory::Navigation)
    } else if k == "scrollable"@ {
        Some(KeyCategory::Scrollable)
    } else if k == "space"@ {
        Some(KeyCategory::Space)
    } else if k == "symbol"@ {
        Some(KeyCategory::Symbol)
    } else if k == "function"@ {
        Some(KeyCategory::Function)
    } else if k == "altfunction"@ {
        Some(KeyCategory::AltFunction)
    } else if k == "unknown"@ {
        Some(KeyCategory::Unknown)
    } else if k == "mouse"@ {
        Some(KeyCategory::Mouse)
    } else {
        None
    }
}

/// Reads the name of a category.
pub fn parse_category(name: &str) -> (category: Option<KeyCategory>)
    ensures
        category == category_named(name@),
{
    let k = lower_chars(name);
    if chars_eq(&k, "escape") {
        Some(KeyCategory::Escape)
    } else if chars_eq(&k, "normal") {
        Some(KeyCategory::Normal)
    } else if chars_eq(&k, "numeric") {
        Some(KeyCategory::Numeric)
    } else if chars_eq(&k, "modifier") {
        Some(KeyCategory::Modifier)
    } else if chars_eq(&k, "editor") {
        Some(KeyCategory::Editor)
    } else if chars_eq(&k, "navigation") {
        Some(KeyCategory::Navigation)
    } else if chars_eq(&k, "scrollable") {
        Some(KeyCategory::Scrollable)
    } else if chars_eq(&k, "space") {
        Some(KeyCategory::Space)
    } else if chars_eq(&k, "symbol") {
        Some(KeyCategory::Symbol)
    } else if chars_eq(&k, "function") {
        Some(KeyCategory::Function)
    } else if chars_eq(&k, "altfunction") {
        Some(KeyCategory::AltFunction)
    } else if chars_eq(&k, "unknown") {
        Some(KeyCategory::Unknown)
    } else if chars_eq(&k, "mouse") {
        Some(KeyCategory::Mouse)
    } else {
        None
    }
}

/// A style with white text.
pub open spec fn plain_style(
    width: u32,
    height: u32,
    icon_size: u32,
    text_size: u32,
    r: u8,
    g: u8,
    b: u8,
) -> Style {
    Style { width, height, icon_size, text_size, bg_color: Color { r, g, b }, fg_color: white() }
}

/// The style that each category has before a document sets another.
pub open spec fn fallback_for_spec(category: KeyCategory) -> Style {
    match category {
        KeyCategory::Normal => plain_style(90_000, 90_000, 0, 20_000, 0x1e, 0x1e, 0x30),
        KeyCategory::Modifier => plain_style(120_000, 90_000, 25_000, 18_000, 0x32, 0x28, 0x3c),
        KeyCategory::Editor => plain_style(90_000, 90_000, 18_000, 22_000, 0x3f, 0x2e, 0x2e),
        KeyCategory::Navigation => plain_style(90_000, 90_000, 20_000, 22_000, 0x2e, 0x3f, 0x2e),
        KeyCategory::Scrollable => plain_style(90_000, 90_000, 20_000, 22_000, 0x2e, 0x3f, 0x2e),
        KeyCategory::Numeric => plain_style(90_000, 90_000, 0, 24_000, 0x2e, 0x2e, 0x2e),
        KeyCategory::Symbol => plain_style(90_000, 90_000, 20_000, 24_000, 0x3c, 0x2e, 0x2e),
        KeyCategory::Space => plain_style(260_000, 90_000, 20_000, 28_000, 0x88, 0x88, 0x88),
        KeyCategory::Escape => plain_style(90_000, 90_000, 20_000, 22_000, 0xaa, 0x11, 0x11),
        KeyCategory::Unknown => plain_style(90_000, 90_000, 14_000, 22_000, 0x55, 0x55, 0x55),
        KeyCategory::Function => plain_style(90_000, 90_000, 14_000, 22_000, 0x00, 0x11, 0x55),
        KeyCategory::AltFunction => plain_style(90_000, 90_000, 14_000, 22_000, 0x00, 0x44, 0x88),
        KeyCategory::Mouse => plain_style(90_000, 90_000, 0, 24_000, 0x80, 0x11, 0x55),
    }
}

/// The styles before a document sets others: one for every category.
pub open spec fn fallback_styles_spec() -> Map<KeyCategory, Style> {
    Map::new(|c: KeyCategory| true, |c: KeyCategory| fallback_for_spec(c))
}

/// The numbers and colour texts that a document gives for one category; `None`
/// where it gives none, or gives a value of another type.
#[derive(Debug)]
pub struct StyleFields {
    pub width: Option<u32>,
    pub height: Option<u32>,
    pub icon_size: Option<u32>,
    pub text_size: Option<u32>,
    pub bg_color: Option<String>,
    pub fg_color: Option<String>,
}

/// The value of a `StyleFields`; colour texts as UTF-8 bytes.
pub ghost struct StyleFieldsModel {
    pub width: Option<u32>,
    pub height: Option<u32>,
    pub icon_size: Option<u32>,
    pub text_size: Option<u32>,
    pub bg_color: Option<Seq<u8>>,
    pub fg_color: Option<Seq<u8>>,
}

/// The UTF-8 bytes of a colour text, where there is one.
pub open spec fn color_bytes(text: Option<String>) -> Option<Seq<u8>> {
    match text {
        Some(t) => Some(encode_utf8(t@)),
        None => None,
    }
}

impl View for StyleFields {
    type V = StyleFieldsModel;

    open spec fn view(&self) -> StyleFieldsModel {
        StyleFieldsModel {
            width: self.width,
            height: self.height,
            icon_size: self.icon_size,
            text_size: self.text_size,
            bg_color: color_bytes(self.bg_color),
            fg_color: color_bytes(self.fg_color),
        }
    }
}

/// A number of a document, or the fallback where the document has none.
pub open spec fn number_or(value: Option<u32>, fallback: u32) -> u32 {
    match value {
        Some(v) => v,
        None => fallback,
    }
}

/// The colour of a text that has the length of a colour; the fallback where the
/// text has another length or is missing.
pub open spec fn color_or(text: Option<Seq<u8>>, fallback: Color) -> Color {
    match text {
        Some(t) => if is_color_text(t) {
            hex_color(t)
        } else {
            fallback
        },
        None => fallback,
    }
}

/// The style of a category from what a document gives for it. A missing number
/// is that of the category's fallback style, a missing or misshapen background
/// colour likewise; a missing or misshapen text colour is white.
pub open spec fn parsed_style(fields: StyleFieldsModel, category: KeyCategory) -> Style {
    let fallback = fallback_for_spec(category);
    Style {
        width: number_or(fields.width, fallback.width),
        height: number_or(fields.height, fallback.height),
        icon_size: number_or(fields.icon_size, fallback.icon_size),
        text_size: number_or(fields.text_size, fallback.text_size),
        bg_color: color_or(fields.bg_color, fallback.bg_color),
        fg_color: color_or(fields.fg_color, white()),
    }
}

fn number(value: Option<u32>, fallback: u32) -> (r: u32)
    ensures
        r == number_or(value, fallback),
{
    match value {
        Some(v) => v,
        None => fallback,
    }
}

fn color(text: &Option<String>, fallback: Color) -> (r: Color)
    ensures
        r == color_or(color_bytes(*text), fallback),
{
    match text {
        Some(t) => if has_color_length(t.as_str()) {
            hex(t.as_str())
        } else {
            fallback
        },
        None => fallback,
    }
}

/// Builds the style of a category from the fields that a document gives for it.
pub fn parse_style(fields: &StyleFields, category: KeyCategory) -> (style: Style)
    ensures
        style == parsed_style(fields@, category),
{
    let fallback = Config::fallback_for(category);
    Style {
        width: number(fields.width, fallback.width),
        height: number(fields.height, fallback.height),
        icon_size: number(fields.icon_size, fallback.icon_size),
        text_size: number(fields.text_size, fallback.text_size),
        bg_color: color(&fields.bg_color, fallback.bg_color),
        fg_color: color(&fields.fg_color, Color { r: 255, g: 255, b: 255 }),
    }
}

/// What a settings document holds, as far as the overlay reads it.
#[derive(Debug)]
pub struct ConfigDocument {
    /// The elements of `position` under `window`, where that is an array: for
    /// each element its number, or `None` where it is no decimal number.
    pub position: Option<Vec<Option<i64>>>,
    /// The elements of `size` under `window`, read likewise.
    pub size: Option<Vec<Option<u32>>>,
    /// The tables under `styles` in the order of the document, each with its name.
    pub styles: Vec<(String, StyleFields)>,
    /// `timeout_ms`, where it is a whole number.
    pub timeout_ms: Option<i64>,
}

/// The value of a `ConfigDocument`.
pub ghost struct DocumentModel {
    pub position: Option<Seq<Option<i64>>>,
    pub size: Option<Seq<Option<u32>>>,
    pub styles: Seq<(Seq<char>, StyleFieldsModel)>,
    pub timeout_ms: Option<i64>,
}

/// The values of the named tables of a document.
pub open spec fn style_entries(styles: Seq<(String, StyleFields)>) -> Seq<
    (Seq<char>, StyleFieldsModel),
> {
    Seq::new(styles.len(), |i: int| (styles[i].0@, styles[i].1@))
}

impl View for ConfigDocument {
    type V = DocumentModel;

    open spec fn view(&self) -> DocumentModel {
        DocumentModel {
            position: match self.position {
                Some(v) => Some(v@),
                None => None,
            },
            size: match self.size {
                Some(v) => Some(v@),
                None => None,
            },
            styles: style_entries(self.styles@),
            timeout_ms: self.timeout_ms,
        }
    }
}

/// The settings of the overlay. Positions and lengths are in thousandths of a
/// point.
#[derive(Debug)]
pub struct Config {
    /// Styles by category.
    pub styles: StyleTable,
    /// How long a key press is shown, in milliseconds.
    pub timeout_ms: u64,
    /// Position of the overlay window: from the left, from the top.
    pub position: [i64; 2],
    /// Size of the overlay window: width, height.
    pub size: [u32; 2],
    /// Path of the document that the settings were read from.
    pub path: String,
    /// When that document was last modified, in milliseconds; `None` where that
    /// is not known.
    pub last_modified: Option<u64>,
}

/// The value of a `Config`.
pub ghost struct ConfigModel {
    pub styles: Map<KeyCategory, Style>,
    pub timeout_ms: u64,
    pub position: (i64, i64),
    pub size: (u32, u32),
    pub path: Seq<char>,
    pub last_modified: Option<u64>,
}

impl View for Config {
    type V = ConfigModel;

    open spec fn view(&self) -> ConfigModel {
        ConfigModel {
            styles: self.styles@,
            timeout_ms: self.timeout_ms,
            position: (self.position[0], self.position[1]),
            size: (self.size[0], self.size[1]),
            path: self.path@,
            last_modified: self.last_modified,
        }
    }
}

/// Timeout before a document sets another, in milliseconds.
pub const DEFAULT_TIMEOUT_MS: u64 = 1200;

/// The styles once the named tables of a document are read in their order: a
/// table whose name is that of a category sets that category's style, a later
/// one over an earlier one; a table with another name is passed over.
pub open spec fn styles_with(
    styles: Map<KeyCategory, Style>,
    entries: Seq<(Seq<char>, StyleFieldsModel)>,
) -> Map<KeyCategory, Style>
    decreases entries.len(),
{
    if entries.len() == 0 {
        styles
    } else {
        let earlier = styles_with(styles, entries.drop_last());
        match category_named(entries.last().0) {
            Some(category) => earlier.insert(category, parsed_style(entries.last().1, category)),
            None => earlier,
        }
    }
}

/// A pair of numbers from an array of a document: the array's two elements,
/// each replaced by its fallback where it is no number; the pair before the
/// document where there is no array or it has not two elements.
pub open spec fn pair_or<T>(array: Option<Seq<Option<T>>>, inner: (T, T), outer: (T, T)) -> (T, T) {
    match array {
        Some(a) => if a.len() == 2 {
            (
                match a[0] {
                    Some(x) => x,
                    None => inner.0,
                },
                match a[1] {
                    Some(y) => y,
                    None => inner.1,
                },
            )
        } else {
            outer
        },
        None => outer,
    }
}

/// A whole number of a document as an unsigned one: a negative number counts
/// from two to the power of 64 down.
pub open spec fn unsigned(value: i64) -> u64 {
    if value >= 0 {
        value as u64
    } else {
        (value + 0x1_0000_0000_0000_0000) as u64
    }
}

/// The settings that a document gives. Without a document they are the
/// defaults: the fallback styles, a timeout of 1200 ms, the window at 500 by 500
/// points and 800 by 120 points large.
pub open spec fn loaded(
    path: Seq<char>,
    document: Option<DocumentModel>,
    last_modified: Option<u64>,
) -> ConfigModel {
    match document {
        Some(doc) => ConfigModel {
            styles: styles_with(fallback_styles_spec(), doc.styles),
            timeout_ms: match doc.timeout_ms {
                Some(t) => unsigned(t),
                None => DEFAULT_TIMEOUT_MS,
            },
            position: pair_or(doc.position, (100_000i64, 100_000i64), (500_000i64, 500_000i64)),
            size: pair_or(doc.size, (800_000u32, 120_000u32), (800_000u32, 120_000u32)),
            path,
            last_modified,
        },
        None => ConfigModel {
            styles: fallback_styles_spec(),
            timeout_ms: DEFAULT_TIMEOUT_MS,
            position: (500_000i64, 500_000i64),
            size: (800_000u32, 120_000u32),
            path,
            last_modified,
        },
    }
}

/// Whether the settings are to be read again: the watcher has signalled, or the
/// document was modified at a known time and that is later than the time kept,
/// or no time is kept.
pub open spec fn reload_due_spec(
    signalled: bool,
    modified: Option<u64>,
    last_modified: Option<u64>,
) -> bool {
    signalled || match modified {
        Some(m) => match last_modified {
            Some(l) => m > l,
            None => true,
        },
        None => false,
    }
}

fn element_or<T: Copy>(array: &Vec<Option<T>>, i: usize, fallback: T) -> (r: T)
    requires
        i < array@.len(),
    ensures
        r == match array@[i as int] {
            Some(x) => x,
            None => fallback,
        },
{
    match array[i] {
        Some(x) => x,
        None => fallback,
    }
}

fn pair<T: Copy>(array: &Option<Vec<Option<T>>>, inner: (T, T), outer: (T, T)) -> (r: [T; 2])
    ensures
        (r[0], r[1]) == pair_or(
            match *array {
                Some(v) => Some(v@),
                None => None,
            },
            inner,
            outer,
        ),
{
    match array {
        Some(a) => if a.len() == 2 {
            [element_or(a, 0, inner.0), element_or(a, 1, inner.1)]
        } else {
            [outer.0, outer.1]
        },
        None => [outer.0, outer.1],
    }
}

fn to_unsigned(value: i64) -> (r: u64)
    ensures
        r == unsigned(value),
{
    if value >= 0 {
        value as u64
    } else {
        ((value - i64::MIN) as u64) + 0x8000_0000_0000_0000u64
    }
}

impl Config {
    /// The style used where a category has no entry.
    pub fn fallback_style() -> (style: Style)
        ensures
            style == fallback_style_spec(),
    {
        Style {
            width: 90_000,
            height: 90_000,
            icon_size: 0,
            text_size: 24_000,
            bg_color: Color { r: 0x3c, g: 0x3c, b: 0x3c },
            fg_color: Color { r: 255, g: 255, b: 255 },
        }
    }

    /// Builds the settings from a document. `document` is `None` where the file
    /// at `path` cannot be read or is no document.
    pub fn load(
        path: &str,
        document: Option<&ConfigDocument>,
        last_modified: Option<u64>,
    ) -> (config: Config)
        ensures
            config@ == loaded(
                path@,
                match document {
                    Some(doc) => Some(doc@),
                    None => None,
                },
                last_modified,
            ),
    {
        let mut styles = Self::fallback_styles();
        let mut timeout_ms: u64 = DEFAULT_TIMEOUT_MS;
        let mut position: [i64; 2] = [500_000, 500_000];
        let mut size: [u32; 2] = [800_000, 120_000];
        match document {
            Some(doc) => {
                position = pair(&doc.position, (100_000, 100_000), (500_000, 500_000));
                size = pair(&doc.size, (800_000, 120_000), (800_000, 120_000));
                let ghost entries = style_entries(doc.styles@);
                let mut i: usize = 0;
                assert(entries.take(0) =~= Seq::empty());
                while i < doc.styles.len()
                    invariant
                        0 <= i <= doc.styles@.len(),
                        entries == style_entries(doc.styles@),
                        styles@ == styles_with(fallback_styles_spec(), entries.take(i as int)),
                    decreases doc.styles@.len() - i,
                {
                    let named = &doc.styles[i];
                    proof {
                        let upto = entries.take(i as int + 1);
                        assert(upto.drop_last() =~= entries.take(i as int));
                        assert(upto.last() == (named.0@, named.1@));
                    }
                    match parse_category(named.0.as_str()) {
                        Some(category) => {
                            let style = parse_style(&named.1, category);
                            styles.insert(category, style);
                        },
                        None => {},
                    }
                    i += 1;
                }
                assert(entries.take(i as int) =~= entries);
                match doc.timeout_ms {
                    Some(t) => {
                        timeout_ms = to_unsigned(t);
                    },
                    None => {},
                }
            },
            None => {},
        }
        Config { styles, timeout_ms, position, size, path: String::from_str(path), last_modified }
    }

    /// The settings without a document.
    pub fn default() -> (config: Config)
        ensures
            config@ == loaded("does-not-exist.toml"@, None, None),
    {
        Self::load("does-not-exist.toml", None, None)
    }

    /// A copy of the settings.
    pub fn clone(&self) -> (config: Config)
        ensures
            config@ == self@,
    {
        Config {
            styles: self.styles,
            timeout_ms: self.timeout_ms,
            position: self.position,
            size: self.size,
            path: self.path.clone(),
            last_modified: self.last_modified,
        }
    }

    /// Whether the settings are to be read again. `signalled` tells whether the
    /// watcher has reported a change, `modified` when the document was last
    /// modified, where that is known.
    pub fn reload_due(&self, signalled: bool, modified: Option<u64>) -> (due: bool)
        ensures
            due == reload_due_spec(signalled, modified, self.last_modified),
    {
        signalled || match modified {
            Some(m) => match self.last_modified {
                Some(l) => m > l,
                None => true,
            },
            None => false,
        }
    }

    /// Reads the settings again where that is due, from the document as it is
    /// now, and tells whether it did.
    pub fn maybe_reload(
        &mut self,
        signalled: bool,
        modified: Option<u64>,
        document: Option<&ConfigDocument>,
    ) -> (reloaded: bool)
        ensures
            reloaded == reload_due_spec(signalled, modified, old(self).last_modified),
            reloaded ==> final(self)@ == loaded(
                old(self).path@,
                match document {
                    Some(doc) => Some(doc@),
                    None => None,
                },
                modified,
            ),
            !reloaded ==> *final(self) == *old(self),
    {
        if self.reload_due(signalled, modified) {
            let fresh = Self::load(self.path.as_str(), document, modified);
            *self = fresh;
            true
        } else {
            false
        }
    }

    /// The style that a category has before a document sets another.
    pub fn fallback_for(category: KeyCategory) -> (style: Style)
        ensures
            style == fallback_for_spec(category),
    {
        match category {
            KeyCategory::Normal => plain(90_000, 90_000, 0, 20_000, 0x1e, 0x1e, 0x30),
            KeyCategory::Modifier => plain(120_000, 90_000, 25_000, 18_000, 0x32, 0x28, 0x3c),
            KeyCategory::Editor => plain(90_000, 90_000, 18_000, 22_000, 0x3f, 0x2e, 0x2e),
            KeyCategory::Navigation => plain(90_000, 90_000, 20_000, 22_000, 0x2e, 0x3f, 0x2e),
            KeyCategory::Scrollable => plain(90_000, 90_000, 20_000, 22_000, 0x2e, 0x3f, 0x2e),
            KeyCategory::Numeric => plain(90_000, 90_000, 0, 24_000, 0x2e, 0x2e, 0x2e),
            KeyCategory::Symbol => plain(90_000, 90_000, 20_000, 24_000, 0x3c, 0x2e, 0x2e),
            KeyCategory::Space => plain(260_000, 90_000, 20_000, 28_000, 0x88, 0x88, 0x88),
            KeyCategory::Escape => plain(90_000, 90_000, 20_000, 22_000, 0xaa, 0x11, 0x11),
            KeyCategory::Unknown => plain(90_000, 90_000, 14_000, 22_000, 0x55, 0x55, 0x55),
            KeyCategory::Function => plain(90_000, 90_000, 14_000, 22_000, 0x00, 0x11, 0x55),
            KeyCategory::AltFunction => plain(90_000, 90_000, 14_000, 22_000, 0x00, 0x44, 0x88),
            KeyCategory::Mouse => plain(90_000, 90_000, 0, 24_000, 0x80, 0x11, 0x55),
        }
    }

    /// The styles before a document sets others.
    pub fn fallback_styles() -> (styles: StyleTable)
        ensures
            styles@ == fallback_styles_spec(),
    {
        let mut styles = StyleTable::new();
        styles.insert(KeyCategory::Normal, Self::fallback_for(KeyCategory::Normal));
        styles.insert(KeyCategory::Modifier, Self::fallback_for(KeyCategory::Modifier));
        styles.insert(KeyCategory::Editor, Self::fallback_for(KeyCategory::Editor));
        styles.insert(KeyCategory::Navigation, Self::fallback_for(KeyCategory::Navigation));
        styles.insert(KeyCategory::Scrollable, Self::fallback_for(KeyCategory::Scrollable));
        styles.insert(KeyCategory::Numeric, Self::fallback_for(KeyCategory::Numeric));
        styles.insert(KeyCategory::Symbol, Self::fallback_for(KeyCategory::Symbol));
        styles.insert(KeyCategory::Space, Self::fallback_for(KeyCategory::Space));
        styles.insert(KeyCategory::Escape, Self::fallback_for(KeyCategory::Escape));
        styles.insert(KeyCategory::Unknown, Self::fallback_for(KeyCategory::Unknown));
        styles.insert(KeyCategory::Function, Self::fallback_for(KeyCategory::Function));
        styles.insert(KeyCategory::AltFunction, Self::fallback_for(KeyCategory::AltFunction));
        styles.insert(KeyCategory::Mouse, Self::fallback_for(KeyCategory::Mouse));
        assert(styles@ =~= fallback_styles_spec());
        styles
    }
}

fn plain(
    width: u32,
    height: u32,
    icon_size: u32,
    text_size: u32,
    r: u8,
    g: u8,
    b: u8,
) -> (style: Style)
    ensures
        style == plain_style(width, height, icon_size, text_size, r, g, b),
{
    Style {
        width,
        height,
        icon_size,
        text_size,
        bg_color: Color { r, g, b },
        fg_color: Color { r: 255, g: 255, b: 255 },
    }
}

} // verus!
