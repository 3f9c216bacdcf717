//! The timed display buffer: the keys that are visible now, and how they enter,
//! age and leave.

use crate::config::config::{style_in, Config, Style, StyleTable};
use crate::input::keymap::{
    category_for_key, classify, normalize_key_label, normalize_key_spec, normalize_mouse_label,
    normalize_mouse_spec, KeyCategory,
};
use crate::text::{
    ascii_digit, chars_of, find_char, has_prefix, index_of_char, is_ascii_digit, starts_with,
    str_eq, to_lowercase, to_uppercase, trim_range, trimmed, unicode_lowercase,
    unicode_uppercase,
};
use crate::ui::laws::{
    lemma_shown_entries, lemma_width_from_bounds, lemma_width_from_labels, lemma_width_from_skip,
};
use crate::ui::layout::{box_models, key_box, layout_boxes, KeyBox};
use std::collections::VecDeque;
use vstd::prelude::*;
use vstd::string::*;

verus! {

/// Gap that every key box is followed by, in thousandths of a point.
pub const PADDING: u32 = 8_000;

/// Animation progress of a key that was just pressed, in thousandths.
pub const ANIM_START: u32 = 800;

/// How far the animation moves on each frame on which the key is drawn.
pub const ANIM_STEP: u32 = 100;

/// Animation progress of a key at full size.
pub const ANIM_FULL: u32 = 1_000;

/// Age in milliseconds at which a key leaves the buffer.
pub const LIFETIME_MS: u64 = 1_000;

/// One visible key.
#[derive(Debug, Clone)]
pub struct KeyEntry {
    /// Icon glyph; may be empty.
    pub icon: String,
    /// Label text.
    pub label: String,
    /// Animation progress in thousandths.
    pub anim: u32,
    /// When the key was last pressed, in milliseconds.
    pub time: u64,
}

/// The value of a `KeyEntry`.
pub ghost struct EntryModel {
    pub icon: Seq<char>,
    pub label: Seq<char>,
    pub anim: u32,
    pub time: u64,
}

impl View for KeyEntry {
    type V = EntryModel;

    open spec fn view(&self) -> EntryModel {
        EntryModel { icon: self.icon@, label: self.label@, anim: self.anim, time: self.time }
    }
}

/// The visible keys in order of arrival, oldest first.
#[derive(Debug)]
pub struct KeyBuffer {
    pub keys: VecDeque<KeyEntry>,
}

impl View for KeyBuffer {
    type V = Seq<EntryModel>;

    open spec fn view(&self) -> Seq<EntryModel> {
        entry_models(self.keys@)
    }
}

/// The values of a run of entries.
pub open spec fn entry_models(keys: Seq<KeyEntry>) -> Seq<EntryModel> {
    Seq::new(keys.len(), |i: int| keys[i]@)
}

/// Time since the key was last pressed; zero where the clock reads earlier than
/// the press.
pub open spec fn age(entry: EntryModel, now: u64) -> int {
    if now >= entry.time {
        now - entry.time
    } else {
        0
    }
}

/// The entries younger than the lifetime, in their order.
pub open spec fn live_entries(entries: Seq<EntryModel>, now: u64) -> Seq<EntryModel>
    decreases entries.len(),
{
    if entries.len() == 0 {
        Seq::empty()
    } else {
        let earlier = live_entries(entries.drop_last(), now);
        if age(entries.last(), now) < LIFETIME_MS {
            earlier.push(entries.last())
        } else {
            earlier
        }
    }
}

/// Width that an entry takes on screen: its category's box width and the gap.
pub open spec fn slot_width(entry: EntryModel, styles: Map<KeyCategory, Style>) -> int {
    style_in(styles, classify(entry.label)).width + PADDING
}

/// How many entries, counted from the newest backward, fit into `budget`: the
/// newest if its slot is no wider than the budget, then the next with what is
/// left, up to the first that does not fit.
pub open spec fn fit_count(
    entries: Seq<EntryModel>,
    styles: Map<KeyCategory, Style>,
    budget: int,
) -> nat
    decreases entries.len(),
{
    if entries.len() == 0 {
        0
    } else {
        let width = slot_width(entries.last(), styles);
        if width > budget {
            0
        } else {
            1 + fit_count(entries.drop_last(), styles, budget - width)
        }
    }
}

/// Width of the slots of the entries from position `from` to the newest.
pub open spec fn width_from(
    entries: Seq<EntryModel>,
    styles: Map<KeyCategory, Style>,
    from: int,
) -> int
    decreases entries.len() - from,
{
    if from < 0 || from >= entries.len() {
        0
    } else {
        slot_width(entries[from], styles) + width_from(entries, styles, from + 1)
    }
}

/// Animation progress after one more frame: a step further, and never past full.
pub open spec fn advanced_anim(anim: u32) -> u32 {
    if anim >= ANIM_FULL {
        anim
    } else if anim + ANIM_STEP >= ANIM_FULL {
        ANIM_FULL
    } else {
        (anim + ANIM_STEP) as u32
    }
}

/// An entry one animation step further.
pub open spec fn advanced(entry: EntryModel) -> EntryModel {
    EntryModel { anim: advanced_anim(entry.anim), ..entry }
}

/// What a frame leaves in the buffer: of the live entries the newest that fit
/// into `max_width`, each one animation step further.
pub open spec fn shown_entries(
    entries: Seq<EntryModel>,
    styles: Map<KeyCategory, Style>,
    max_width: u32,
    now: u64,
) -> Seq<EntryModel> {
    let live = live_entries(entries, now);
    let kept = fit_count(live, styles, max_width as int);
    Seq::new(kept, |i: int| advanced(live[live.len() - kept + i]))
}

/// Position of the first entry with the given label; the length where there is
/// none.
pub open spec fn position_of(entries: Seq<EntryModel>, label: Seq<char>) -> int
    decreases entries.len(),
{
    if entries.len() == 0 || entries[0].label == label {
        0
    } else {
        1 + position_of(entries.skip(1), label)
    }
}

/// An entry that was pressed again: touched now, and animated from the start.
pub open spec fn refreshed(entry: EntryModel, now: u64) -> EntryModel {
    EntryModel { anim: ANIM_START, time: now, ..entry }
}

/// A display label without the prefix of a raw key name: `Key` before anything,
/// or `Num` before a single digit.
pub open spec fn stripped(raw: Seq<char>) -> Seq<char> {
    if has_prefix(raw, "Key"@) {
        raw.skip(3)
    } else if has_prefix(raw, "Num"@) && raw.len() == 4 && is_ascii_digit(raw[3]) {
        raw.skip(3)
    } else {
        raw
    }
}

/// The icon of a display label: what stands before its first space, trimmed;
/// empty where it has no space.
pub open spec fn icon_part(display: Seq<char>) -> Seq<char> {
    let text = stripped(display);
    let space = index_of_char(text, ' ');
    if space < text.len() {
        trimmed(text.take(space as int))
    } else {
        Seq::empty()
    }
}

/// The text of a display label: what stands from its first space on, trimmed;
/// all of it, trimmed, where it has no space.
pub open spec fn text_part(display: Seq<char>) -> Seq<char> {
    let text = stripped(display);
    let space = index_of_char(text, ' ');
    if space < text.len() {
        trimmed(text.skip(space as int))
    } else {
        trimmed(text)
    }
}

/// A text in the case it is shown in: in upper case where its lower-case form
/// begins with `f`, as it is otherwise.
pub open spec fn cased(text: Seq<char>, lowered: Seq<char>, uppered: Seq<char>) -> Seq<char> {
    if lowered.len() > 0 && lowered[0] == 'f' {
        uppered
    } else {
        text
    }
}

/// The label that a raw label is stored and shown under.
pub open spec fn shown_label(label: Seq<char>, mouse: bool) -> Seq<char> {
    let display = if mouse {
        normalize_mouse_spec(label)
    } else {
        normalize_key_spec(label)
    };
    let text = text_part(display);
    cased(text, unicode_lowercase(text), unicode_uppercase(text))
}

/// The entry that a label enters the buffer with.
pub open spec fn new_entry(label: Seq<char>, mouse: bool, now: u64) -> EntryModel {
    let display = if mouse {
        normalize_mouse_spec(label)
    } else {
        normalize_key_spec(label)
    };
    EntryModel {
        icon: icon_part(display),
        label: shown_label(label, mouse),
        anim: ANIM_START,
        time: now,
    }
}

/// The buffer after a press: the first entry stored under exactly this label is
/// refreshed where it stands; where there is none, a new entry joins at the end.
pub open spec fn pushed(entries: Seq<EntryModel>, label: Seq<char>, mouse: bool, now: u64) -> Seq<
    EntryModel,
> {
    let at = position_of(entries, label);
    if at < entries.len() {
        entries.update(at, refreshed(entries[at], now))
    } else {
        entries.push(new_entry(label, mouse, now))
    }
}

/// Chooses between a text and its upper-case form by its lower-case form.
pub fn cased_label(text: &str, lowered: &str, uppered: String) -> (label: String)
    ensures
        label@ == cased(text@, lowered@, uppered@),
{
    let low = chars_of(lowered);
    if low.len() > 0 && low[0] == 'f' {
        uppered
    } else {
        String::from_str(text)
    }
}

/// Splits a display label into its icon and its text.
pub fn display_parts(display: &str) -> (parts: (String, String))
    ensures
        parts.0@ == icon_part(display@),
        parts.1@ == text_part(display@),
{
    let chars = chars_of(display);
    let len = chars.len();
    proof {
        reveal_strlit("Key");
        reveal_strlit("Num");
    }
    let start: usize = if starts_with(&chars, "Key") {
        3
    } else if starts_with(&chars, "Num") && len == 4 && ascii_digit(chars[3]) {
        3
    } else {
        0
    };
    let ghost text = stripped(display@);
    assert(text =~= chars@.subrange(start as int, len as int));
    let space = find_char(&chars, start, len, ' ');
    if space < len {
        let icon = trim_range(&chars, start, space);
        let rest = trim_range(&chars, space, len);
        assert(chars@.subrange(start as int, space as int) =~= text.take(space - start));
        assert(chars@.subrange(space as int, len as int) =~= text.skip(space - start));
        (
            String::from_str(display.substring_char(icon.0, icon.1)),
            String::from_str(display.substring_char(rest.0, rest.1)),
        )
    } else {
        let rest = trim_range(&chars, start, len);
        assert(chars@.subrange(start as int, len as int) =~= text);
        (String::new(), String::from_str(display.substring_char(rest.0, rest.1)))
    }
}

fn advance(anim: u32) -> (r: u32)
    ensures
        r == advanced_anim(anim),
{
    if anim >= ANIM_FULL {
        anim
    } else if anim + ANIM_STEP >= ANIM_FULL {
        ANIM_FULL
    } else {
        anim + ANIM_STEP
    }
}

impl KeyBuffer {
    /// An empty buffer.
    pub fn new() -> (buffer: KeyBuffer)
        ensures
            buffer@ == Seq::<EntryModel>::empty(),
    {
        let buffer = KeyBuffer { keys: VecDeque::new() };
        assert(buffer@ =~= Seq::<EntryModel>::empty());
        buffer
    }

    /// Removes every entry whose age has reached the lifetime.
    pub fn expire(&mut self, now: u64)
        ensures
            final(self)@ == live_entries(old(self)@, now),
    {
        let ghost all = self.keys@;
        let ghost models = entry_models(all);
        let mut kept: VecDeque<KeyEntry> = VecDeque::new();
        let count = self.keys.len();
        let mut done: usize = 0;
        assert(models.take(0) =~= Seq::<EntryModel>::empty());
        assert(entry_models(kept@) =~= Seq::<EntryModel>::empty());
        while self.keys.len() > 0
            invariant
                models == entry_models(all),
                all.len() == count,
                done + self.keys@.len() == all.len(),
                self.keys@ == all.skip(done as int),
                entry_models(kept@) == live_entries(models.take(done as int), now),
            decreases self.keys@.len(),
        {
            let ghost before = kept@;
            let front = self.keys.pop_front();
            match front {
                Some(entry) => {
                    proof {
                        let upto = models.take(done as int + 1);
                        assert(entry == all[done as int]);
                        assert(upto.drop_last() =~= models.take(done as int));
                        assert(upto.last() == entry@);
                    }
                    let age: u64 = if now >= entry.time {
                        now - entry.time
                    } else {
                        0
                    };
                    if age < LIFETIME_MS {
                        kept.push_back(entry);
                        assert(entry_models(kept@) =~= entry_models(before).push(entry@));
                    }
                    assert(self.keys@ =~= all.skip(done as int + 1));
                    done = done + 1;
                },
                None => {},
            }
        }
        assert(models.take(done as int) =~= models);
        self.keys = kept;
    }

    /// Counts the newest entries that fit into `max_width` side by side, and adds
    /// up the width of their slots.
    pub fn fit(&self, styles: &StyleTable, max_width: u32) -> (fitted: (usize, u64))
        ensures
            fitted.0 == fit_count(self@, styles@, max_width as int),
            fitted.0 <= self@.len(),
            fitted.1 == width_from(self@, styles@, self@.len() - fitted.0),
            fitted.1 <= max_width,
    {
        let len = self.keys.len();
        let ghost entries = self@;
        let mut count: usize = 0;
        let mut total: u64 = 0;
        assert(entries.take(len as int) =~= entries);
        while count < len
            invariant
                len == self.keys@.len(),
                entries == self@,
                0 <= count <= len,
                total <= max_width,
                total == width_from(entries, styles@, len - count),
                fit_count(entries, styles@, max_width as int) == count + fit_count(
                    entries.take(len - count),
                    styles@,
                    max_width - total,
                ),
            ensures
                0 <= count <= len,
                total <= max_width,
                total == width_from(entries, styles@, len - count),
                fit_count(entries, styles@, max_width as int) == count,
            decreases len - count,
        {
            let entry = &self.keys[len - 1 - count];
            let style = styles.style_for(category_for_key(entry.label.as_str()));
            let width: u64 = style.width as u64 + PADDING as u64;
            proof {
                let rest = entries.take(len - count);
                assert(rest.last() == entry@);
                assert(width == slot_width(rest.last(), styles@));
                assert(rest.drop_last() =~= entries.take(len - count - 1));
            }
            if total + width > max_width as u64 {
                break;
            }
            total = total + width;
            count = count + 1;
        }
        (count, total)
    }

    /// Computes one frame. Entries that have reached the lifetime leave; of the
    /// rest the newest that fit into `max_width` stay, move one animation step on
    /// and are laid out so that the last slot ends at `right_edge`; the others
    /// leave as well.
    pub fn render(
        &mut self,
        config: &Config,
        max_width: u32,
        right_edge: i32,
        now: u64,
    ) -> (boxes: Vec<KeyBox>)
        ensures
            final(self)@ == shown_entries(old(self)@, config.styles@, max_width, now),
            width_from(final(self)@, config.styles@, 0) <= max_width,
            boxes@.len() == final(self)@.len(),
            box_models(boxes@) == layout_boxes(final(self)@, config.styles@, right_edge as int),
    {
        let ghost styles = config.styles@;
        proof {
            lemma_shown_entries(old(self)@, styles, max_width, now);
        }
        self.expire(now);
        let ghost live = self@;
        let fitted = self.fit(&config.styles, max_width);
        let count = fitted.0;
        let mut excess: usize = self.keys.len() - count;
        let ghost first = live.len() - count;
        while excess > 0
            invariant
                excess <= first,
                first + count == live.len(),
                self.keys@.len() == count + excess,
                self@ == live.skip(first - excess),
            decreases excess,
        {
            let ghost before = self.keys@;
            let _ = self.keys.pop_front();
            assert(self@ =~= entry_models(before).skip(1));
            assert(entry_models(before).skip(1) =~= live.skip(first - excess + 1));
            excess = excess - 1;
        }
        let ghost kept = self@;
        let ghost target = shown_entries(old(self)@, styles, max_width, now);
        assert(target.len() == count);
        assert forall|i: int| 0 <= i < count implies target[i] == advanced(kept[i]) by {
        }
        proof {
            lemma_width_from_skip(live, styles, first, 0);
            lemma_width_from_labels(kept, target, styles, 0);
        }
        let ghost keys = self.keys@;
        let mut shown: VecDeque<KeyEntry> = VecDeque::new();
        let mut boxes: Vec<KeyBox> = Vec::new();
        let mut remaining: u64 = fitted.1;
        let mut done: usize = 0;
        assert(entry_models(shown@) =~= target.take(0));
        assert(box_models(boxes@) =~= layout_boxes(target, styles, right_edge as int).take(0));
        while self.keys.len() > 0
            invariant
                styles == config.styles@,
                keys.len() == count,
                target.len() == count,
                kept == entry_models(keys),
                forall|i: int| 0 <= i < count ==> target[i] == advanced(kept[i]),
                done + self.keys@.len() == count,
                self.keys@ == keys.skip(done as int),
                entry_models(shown@) == target.take(done as int),
                remaining == width_from(target, styles, done as int),
                remaining <= max_width,
                box_models(boxes@) == layout_boxes(target, styles, right_edge as int).take(
                    done as int,
                ),
            decreases self.keys@.len(),
        {
            let ghost shown_before = shown@;
            let ghost boxes_before = boxes@;
            let front = self.keys.pop_front();
            match front {
                Some(entry) => {
                    assert(entry == keys[done as int]);
                    let moved = KeyEntry {
                        icon: entry.icon,
                        label: entry.label,
                        anim: advance(entry.anim),
                        time: entry.time,
                    };
                    assert(moved@ == target[done as int]);
                    let x: i64 = right_edge as i64 - remaining as i64;
                    let laid = key_box(&moved, &config.styles, x);
                    boxes.push(laid.0);
                    shown.push_back(moved);
                    proof {
                        lemma_width_from_bounds(target, styles, done as int + 1);
                        assert(entry_models(shown@) =~= entry_models(shown_before).push(moved@));
                        assert(entry_models(shown@) =~= target.take(done as int + 1));
                        assert(box_models(boxes@) =~= box_models(boxes_before).push(laid.0@));
                        assert(box_models(boxes@) =~= layout_boxes(
                            target,
                            styles,
                            right_edge as int,
                        ).take(done as int + 1));
                        assert(self.keys@ =~= keys.skip(done as int + 1));
                    }
                    remaining = remaining - laid.1;
                    done = done + 1;
                },
                None => {},
            }
        }
        assert(target.take(done as int) =~= target);
        assert(layout_boxes(target, styles, right_edge as int).take(done as int) =~= layout_boxes(
            target,
            styles,
            right_edge as int,
        ));
        self.keys = shown;
        boxes
    }

    /// Finds the first entry stored under exactly this label.
    pub fn find(&self, label: &str) -> (at: usize)
        ensures
            at == position_of(self@, label@),
            at <= self@.len(),
    {
        let ghost entries = self@;
        let mut at: usize = 0;
        assert(entries.skip(0) =~= entries);
        while at < self.keys.len() && !str_eq(self.keys[at].label.as_str(), label)
            invariant
                entries == self@,
                0 <= at <= self.keys@.len(),
                position_of(entries, label@) == at + position_of(entries.skip(at as int), label@),
            decreases self.keys@.len() - at,
        {
            assert(entries.skip(at as int)[0] == self.keys@[at as int]@);
            assert(entries.skip(at as int).skip(1) =~= entries.skip(at as int + 1));
            at += 1;
        }
        proof {
            if at < self.keys@.len() {
                assert(entries.skip(at as int)[0] == self.keys@[at as int]@);
            }
        }
        at
    }

    /// Records a press at time `now`. Where an entry is stored under exactly this
    /// label, it is refreshed in place; otherwise the label is normalised (as a
    /// mouse label where `mouse` holds), split into icon and text, and appended.
    pub fn push_key(&mut self, _unused_icon: &str, label: &str, mouse: bool, now: u64)
        ensures
            final(self)@ == pushed(old(self)@, label@, mouse, now),
    {
        let at = self.find(label);
        if at < self.keys.len() {
            let ghost before = self.keys@;
            match self.keys.remove(at) {
                Some(entry) => {
                    let touched = KeyEntry {
                        icon: entry.icon,
                        label: entry.label,
                        anim: ANIM_START,
                        time: now,
                    };
                    self.keys.insert(at, touched);
                    assert(self@ =~= entry_models(before).update(
                        at as int,
                        refreshed(before[at as int]@, now),
                    ));
                },
                None => {},
            }
            return;
        }
        let display = if mouse {
            normalize_mouse_label(label)
        } else {
            normalize_key_label(label)
        };
        let parts = display_parts(display);
        let lowered = to_lowercase(parts.1.as_str());
        let uppered = to_uppercase(parts.1.as_str());
        let text = cased_label(parts.1.as_str(), lowered.as_str(), uppered);
        let ghost before = self.keys@;
        let entry = KeyEntry { icon: parts.0, label: text, anim: ANIM_START, time: now };
        self.keys.push_back(entry);
        assert(self@ =~= entry_models(before).push(entry@));
    }
}

} // verus!
