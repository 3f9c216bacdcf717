//! What holds of presses and frames whatever the buffer holds.

use crate::config::config::Style;
use crate::input::keymap::KeyCategory;
use crate::ui::ui::{
    advanced, age, fit_count, live_entries, new_entry, position_of, pushed, shown_entries,
    shown_label, slot_width, width_from, EntryModel, ANIM_FULL, ANIM_START, LIFETIME_MS,
};
use vstd::prelude::*;

verus! {

/// Entries with the same labels take slots of the same width.
pub(crate) proof fn lemma_width_from_labels(
    a: Seq<EntryModel>,
    b: Seq<EntryModel>,
    styles: Map<KeyCategory, Style>,
    from: int,
)
    requires
        a.len() == b.len(),
        forall|i: int| 0 <= i < a.len() ==> a[i].label == b[i].label,
    ensures
        width_from(a, styles, from) == width_from(b, styles, from),
    decreases a.len() - from,
{
    if 0 <= from < a.len() {
        lemma_width_from_labels(a, b, styles, from + 1);
    }
}

/// The width from a position on is a matter of the entries from there on alone.
pub(crate) proof fn lemma_width_from_skip(
    entries: Seq<EntryModel>,
    styles: Map<KeyCategory, Style>,
    dropped: int,
    from: int,
)
    requires
        0 <= dropped <= entries.len(),
        0 <= from,
    ensures
        width_from(entries.skip(dropped), styles, from) == width_from(
            entries,
            styles,
            dropped + from,
        ),
    decreases entries.len() - dropped - from,
{
    if from < entries.len() - dropped {
        lemma_width_from_skip(entries, styles, dropped, from + 1);
    }
}

/// No stretch of slots has a negative width.
pub(crate) proof fn lemma_width_from_bounds(
    entries: Seq<EntryModel>,
    styles: Map<KeyCategory, Style>,
    from: int,
)
    ensures
        0 <= width_from(entries, styles, from),
    decreases entries.len() - from,
{
    if 0 <= from < entries.len() {
        lemma_width_from_bounds(entries, styles, from + 1);
    }
}

/// `position_of` gives the first position whose entry has the label: no entry
/// before it has it, and the entry there has it unless the position is the length.
pub proof fn lemma_position_of(entries: Seq<EntryModel>, label: Seq<char>)
    ensures
        0 <= position_of(entries, label) <= entries.len(),
        forall|i: int| 0 <= i < position_of(entries, label) ==> entries[i].label != label,
        position_of(entries, label) < entries.len() ==> entries[position_of(
            entries,
            label,
        )].label == label,
    decreases entries.len(),
{
    if entries.len() > 0 && entries[0].label != label {
        let rest = entries.skip(1);
        lemma_position_of(rest, label);
        assert forall|i: int| 0 <= i < position_of(entries, label) implies entries[i].label
            != label by {
            if i > 0 {
                assert(entries[i] == rest[i - 1]);
            }
        }
    }
}

/// A position that no entry with the label stands before, and that holds one or
/// is the length, is the one that `position_of` gives.
pub proof fn lemma_position_of_is(entries: Seq<EntryModel>, label: Seq<char>, at: int)
    requires
        0 <= at <= entries.len(),
        forall|i: int| 0 <= i < at ==> entries[i].label != label,
        at < entries.len() ==> entries[at].label == label,
    ensures
        position_of(entries, label) == at,
{
    lemma_position_of(entries, label);
}

/// Pressing a label twice leaves one entry for it, where the label is shown as it
/// is pressed: the second press adds no entry, moves none, and leaves every other
/// entry as it was; the entry itself is touched at the second press and animates
/// from the start.
pub proof fn lemma_second_press_refreshes(
    entries: Seq<EntryModel>,
    label: Seq<char>,
    mouse: bool,
    first: u64,
    second: u64,
)
    requires
        shown_label(label, mouse) == label,
    ensures
        ({
            let once = pushed(entries, label, mouse, first);
            let twice = pushed(once, label, mouse, second);
            let at = position_of(once, label);
            &&& 0 <= at < once.len()
            &&& twice.len() == once.len()
            &&& twice[at].label == label
            &&& twice[at].icon == once[at].icon
            &&& twice[at].anim == ANIM_START
            &&& twice[at].time == second
            &&& forall|i: int| 0 <= i < once.len() && i != at ==> twice[i] == once[i]
        }),
{
    let once = pushed(entries, label, mouse, first);
    let before = position_of(entries, label);
    lemma_position_of(entries, label);
    lemma_position_of_is(once, label, before);
}

/// A press of a label that no entry is stored under adds one entry at the end and
/// leaves the others as they were.
pub proof fn lemma_first_press_appends(
    entries: Seq<EntryModel>,
    label: Seq<char>,
    mouse: bool,
    now: u64,
)
    requires
        forall|i: int| 0 <= i < entries.len() ==> entries[i].label != label,
    ensures
        pushed(entries, label, mouse, now) == entries.push(new_entry(label, mouse, now)),
{
    lemma_position_of_is(entries, label, entries.len() as int);
}

/// Every live entry is younger than the lifetime, and is one of the entries.
pub proof fn lemma_live_entries(entries: Seq<EntryModel>, now: u64)
    ensures
        live_entries(entries, now).len() <= entries.len(),
        forall|i: int|
            0 <= i < live_entries(entries, now).len() ==> {
                &&& age(#[trigger] live_entries(entries, now)[i], now) < LIFETIME_MS
                &&& entries.contains(live_entries(entries, now)[i])
            },
        forall|i: int|
            0 <= i < entries.len() && age(entries[i], now) < LIFETIME_MS ==> live_entries(
                entries,
                now,
            ).contains(#[trigger] entries[i]),
    decreases entries.len(),
{
    if entries.len() > 0 {
        let earlier = entries.drop_last();
        let live = live_entries(entries, now);
        lemma_live_entries(earlier, now);
        assert forall|i: int| 0 <= i < live.len() implies {
            &&& age(#[trigger] live[i], now) < LIFETIME_MS
            &&& entries.contains(live[i])
        } by {
            if i < live_entries(earlier, now).len() {
                let e = live_entries(earlier, now)[i];
                assert(earlier.contains(e));
                let j = choose|j: int| 0 <= j < earlier.len() && earlier[j] == e;
                assert(entries[j] == e);
            } else {
                assert(live[i] == entries.last());
                assert(entries[entries.len() - 1] == live[i]);
            }
        }
        assert forall|i: int|
            0 <= i < entries.len() && age(entries[i], now) < LIFETIME_MS implies live.contains(
            #[trigger] entries[i],
        ) by {
            if i < earlier.len() {
                assert(earlier[i] == entries[i]);
                assert(live_entries(earlier, now).contains(earlier[i]));
                let j = choose|j: int|
                    0 <= j < live_entries(earlier, now).len() && live_entries(earlier, now)[j]
                        == earlier[i];
                assert(live[j] == entries[i]);
            } else {
                assert(live[live.len() - 1] == entries[i]);
            }
        }
    }
}

/// The entries that fit are the longest run of newest entries that is no wider
/// than the budget: their slots come to no more than the budget, and with the
/// next older entry, where there is one, to more.
pub proof fn lemma_fit_is_longest(
    entries: Seq<EntryModel>,
    styles: Map<KeyCategory, Style>,
    budget: int,
)
    requires
        0 <= budget,
    ensures
        fit_count(entries, styles, budget) <= entries.len(),
        width_from(entries, styles, entries.len() - fit_count(entries, styles, budget))
            <= budget,
        fit_count(entries, styles, budget) < entries.len() ==> width_from(
            entries,
            styles,
            entries.len() - fit_count(entries, styles, budget) - 1,
        ) > budget,
    decreases entries.len(),
{
    if entries.len() > 0 {
        let width = slot_width(entries.last(), styles);
        let earlier = entries.drop_last();
        let n = entries.len() as int;
        if width <= budget {
            lemma_fit_is_longest(earlier, styles, budget - width);
            let kept = fit_count(earlier, styles, budget - width) as int;
            lemma_width_from_push(earlier, entries.last(), styles, n - 1 - kept);
            assert(earlier.push(entries.last()) =~= entries);
            if kept < n - 1 {
                lemma_width_from_push(earlier, entries.last(), styles, n - 2 - kept);
            }
        } else {
            assert(width_from(entries, styles, n) == 0);
            assert(width_from(entries, styles, n - 1) == width + width_from(entries, styles, n));
        }
    }
}

/// A further entry at the end adds the width of its slot.
proof fn lemma_width_from_push(
    entries: Seq<EntryModel>,
    entry: EntryModel,
    styles: Map<KeyCategory, Style>,
    from: int,
)
    requires
        0 <= from <= entries.len(),
    ensures
        width_from(entries.push(entry), styles, from) == width_from(entries, styles, from)
            + slot_width(entry, styles),
    decreases entries.len() - from,
{
    let longer = entries.push(entry);
    if from < entries.len() {
        lemma_width_from_push(entries, entry, styles, from + 1);
        assert(longer[from] == entries[from]);
    } else {
        assert(longer[from] == entry);
        assert(width_from(longer, styles, from + 1) == 0);
    }
}

/// What a frame keeps: entries younger than the lifetime, in the order they had,
/// which together are no wider than `max_width`; and the newest entry stays
/// whenever it is younger than the lifetime and its slot alone fits.
pub proof fn lemma_shown_entries(
    entries: Seq<EntryModel>,
    styles: Map<KeyCategory, Style>,
    max_width: u32,
    now: u64,
)
    ensures
        ({
            let shown = shown_entries(entries, styles, max_width, now);
            &&& shown.len() <= entries.len()
            &&& width_from(shown, styles, 0) <= max_width
            &&& forall|i: int| 0 <= i < shown.len() ==> age(#[trigger] shown[i], now) < LIFETIME_MS
            &&& entries.len() > 0 && age(entries.last(), now) < LIFETIME_MS && slot_width(
                entries.last(),
                styles,
            ) <= max_width ==> shown.len() > 0 && shown.last() == advanced(entries.last())
        }),
{
    let live = live_entries(entries, now);
    let shown = shown_entries(entries, styles, max_width, now);
    let kept = fit_count(live, styles, max_width as int);
    lemma_live_entries(entries, now);
    lemma_fit_is_longest(live, styles, max_width as int);
    let tail = live.skip(live.len() - kept);
    assert(tail.len() == shown.len());
    lemma_width_from_labels(tail, shown, styles, 0);
    lemma_width_from_skip(live, styles, live.len() - kept, 0);
    assert forall|i: int| 0 <= i < shown.len() implies age(#[trigger] shown[i], now)
        < LIFETIME_MS by {
        assert(age(live[live.len() - kept + i], now) < LIFETIME_MS);
    }
}

/// Where no entry was touched before an older one, a frame keeps the entries
/// that were touched last: each live entry that it drops for want of room was
/// touched no later than each entry that it keeps.
pub proof fn lemma_kept_are_latest(
    entries: Seq<EntryModel>,
    styles: Map<KeyCategory, Style>,
    max_width: u32,
    now: u64,
)
    requires
        touched_in_order(entries),
    ensures
        ({
            let live = live_entries(entries, now);
            let shown = shown_entries(entries, styles, max_width, now);
            forall|i: int, j: int|
                0 <= i < live.len() - shown.len() && 0 <= j < shown.len() ==> (
                #[trigger] live[i]).time <= (#[trigger] shown[j]).time
        }),
{
    let live = live_entries(entries, now);
    let shown = shown_entries(entries, styles, max_width, now);
    lemma_live_keeps_order(entries, now);
    lemma_fit_is_longest(live, styles, max_width as int);
    assert forall|i: int, j: int|
        0 <= i < live.len() - shown.len() && 0 <= j < shown.len() implies (#[trigger] live[i]).time
        <= (#[trigger] shown[j]).time by {
        let from = live.len() - shown.len() + j;
        assert(shown[j] == advanced(live[from]));
        assert(live[i].time <= live[from].time);
    }
}

/// Whether no entry was touched before one that stands before it.
pub open spec fn touched_in_order(entries: Seq<EntryModel>) -> bool {
    forall|i: int, j: int|
        0 <= i <= j < entries.len() ==> (#[trigger] entries[i]).time <= (#[trigger] entries[j]).time
}

/// Among the live entries, as among all, none was touched before an older one.
proof fn lemma_live_keeps_order(entries: Seq<EntryModel>, now: u64)
    requires
        touched_in_order(entries),
    ensures
        touched_in_order(live_entries(entries, now)),
        forall|i: int|
            0 <= i < live_entries(entries, now).len() ==> (#[trigger] live_entries(
                entries,
                now,
            )[i]).time <= entries.last().time,
    decreases entries.len(),
{
    if entries.len() > 0 {
        let earlier = entries.drop_last();
        let live = live_entries(entries, now);
        let before = live_entries(earlier, now);
        assert(touched_in_order(earlier)) by {
            assert forall|i: int, j: int| 0 <= i <= j < earlier.len() implies (
            #[trigger] earlier[i]).time <= (#[trigger] earlier[j]).time by {
                assert(earlier[i] == entries[i] && earlier[j] == entries[j]);
            }
        }
        lemma_live_keeps_order(earlier, now);
        lemma_live_entries(earlier, now);
        assert forall|i: int| 0 <= i < live.len() implies (#[trigger] live[i]).time
            <= entries.last().time by {
            if i < before.len() {
                assert(live[i] == before[i]);
                assert(earlier.len() > 0);
                assert(earlier.last() == entries[entries.len() - 2]);
                assert(entries.last() == entries[entries.len() - 1]);
            }
        }
        assert forall|i: int, j: int| 0 <= i <= j < live.len() implies (#[trigger] live[i]).time
            <= (#[trigger] live[j]).time by {
            if j < before.len() {
                assert(live[i] == before[i] && live[j] == before[j]);
            } else {
                assert(live[j] == entries.last());
            }
        }
    }
}

/// A key pressed into an empty buffer is there after a frame for as long as less
/// than the lifetime has passed since the press, given room for its slot, and is
/// gone after a frame from then on.
pub proof fn lemma_entry_lives_for_the_lifetime(
    label: Seq<char>,
    mouse: bool,
    pressed: u64,
    now: u64,
    styles: Map<KeyCategory, Style>,
    max_width: u32,
)
    requires
        slot_width(new_entry(label, mouse, pressed), styles) <= max_width,
    ensures
        ({
            let entry = new_entry(label, mouse, pressed);
            let before = pushed(Seq::empty(), label, mouse, pressed);
            let after = shown_entries(before, styles, max_width, now);
            &&& before == seq![entry]
            &&& now - pressed < LIFETIME_MS ==> after == seq![advanced(entry)]
            &&& now - pressed >= LIFETIME_MS ==> after == Seq::<EntryModel>::empty()
        }),
{
    let entry = new_entry(label, mouse, pressed);
    let before = pushed(Seq::empty(), label, mouse, pressed);
    assert(before =~= seq![entry]);
    let live = live_entries(before, now);
    assert(before.drop_last() =~= Seq::<EntryModel>::empty());
    assert(live_entries(before.drop_last(), now) =~= Seq::<EntryModel>::empty());
    let after = shown_entries(before, styles, max_width, now);
    if now - pressed < LIFETIME_MS {
        assert(live =~= seq![entry]);
        assert(live.drop_last() =~= Seq::<EntryModel>::empty());
        assert(live.last() == entry);
        assert(fit_count(live.drop_last(), styles, max_width - slot_width(entry, styles)) == 0);
        assert(fit_count(live, styles, max_width as int) == 1);
        assert(after =~= seq![advanced(entry)]);
    } else {
        assert(live =~= Seq::<EntryModel>::empty());
        assert(after =~= Seq::<EntryModel>::empty());
    }
}

/// Whether the animation progress of every entry is at most full.
pub open spec fn animations_in_range(entries: Seq<EntryModel>) -> bool {
    forall|i: int| 0 <= i < entries.len() ==> (#[trigger] entries[i]).anim <= ANIM_FULL
}

/// Neither a press nor a frame takes the animation progress of an entry past
/// full.
pub proof fn lemma_animations_stay_in_range(
    entries: Seq<EntryModel>,
    label: Seq<char>,
    mouse: bool,
    styles: Map<KeyCategory, Style>,
    max_width: u32,
    now: u64,
)
    requires
        animations_in_range(entries),
    ensures
        animations_in_range(pushed(entries, label, mouse, now)),
        animations_in_range(shown_entries(entries, styles, max_width, now)),
{
    lemma_position_of(entries, label);
    lemma_live_entries(entries, now);
    let live = live_entries(entries, now);
    let shown = shown_entries(entries, styles, max_width, now);
    lemma_fit_is_longest(live, styles, max_width as int);
    assert forall|i: int| 0 <= i < shown.len() implies (#[trigger] shown[i]).anim <= ANIM_FULL by {
        let from = live[live.len() - shown.len() + i];
        assert(entries.contains(from));
        let j = choose|j: int| 0 <= j < entries.len() && entries[j] == from;
        assert(entries[j].anim <= ANIM_FULL);
    }
}

/// Whether no two entries are stored under the same label.
pub open spec fn labels_distinct(entries: Seq<EntryModel>) -> bool {
    forall|i: int, j: int|
        0 <= i < j < entries.len() ==> (#[trigger] entries[i]).label
            != (#[trigger] entries[j]).label
}

/// A press leaves the labels distinct where it finds its entry, or where the
/// label that it is stored under is not in the buffer yet.
pub proof fn lemma_press_keeps_labels_distinct(
    entries: Seq<EntryModel>,
    label: Seq<char>,
    mouse: bool,
    now: u64,
)
    requires
        labels_distinct(entries),
        position_of(entries, label) < entries.len() || forall|i: int|
            0 <= i < entries.len() ==> (#[trigger] entries[i]).label != shown_label(label, mouse),
    ensures
        labels_distinct(pushed(entries, label, mouse, now)),
{
    lemma_position_of(entries, label);
}

/// A frame leaves the labels distinct.
pub proof fn lemma_frame_keeps_labels_distinct(
    entries: Seq<EntryModel>,
    styles: Map<KeyCategory, Style>,
    max_width: u32,
    now: u64,
)
    requires
        labels_distinct(entries),
    ensures
        labels_distinct(shown_entries(entries, styles, max_width, now)),
{
    lemma_live_keeps_labels_distinct(entries, now);
    let live = live_entries(entries, now);
    lemma_fit_is_longest(live, styles, max_width as int);
}

/// Among the live entries, as among all, no two are stored under the same label.
proof fn lemma_live_keeps_labels_distinct(entries: Seq<EntryModel>, now: u64)
    requires
        labels_distinct(entries),
    ensures
        labels_distinct(live_entries(entries, now)),
    decreases entries.len(),
{
    if entries.len() > 0 {
        let earlier = entries.drop_last();
        let live = live_entries(entries, now);
        let before = live_entries(earlier, now);
        assert(labels_distinct(earlier)) by {
            assert forall|i: int, j: int| 0 <= i < j < earlier.len() implies (
            #[trigger] earlier[i]).label != (#[trigger] earlier[j]).label by {
                assert(earlier[i] == entries[i] && earlier[j] == entries[j]);
            }
        }
        lemma_live_keeps_labels_distinct(earlier, now);
        lemma_live_entries(earlier, now);
        assert forall|i: int, j: int| 0 <= i < j < live.len() implies (#[trigger] live[i]).label
            != (#[trigger] live[j]).label by {
            if j < before.len() {
                assert(live[i] == before[i] && live[j] == before[j]);
            } else {
                assert(live[j] == entries.last());
                assert(live[i] == before[i]);
                let k = choose|k: int| 0 <= k < earlier.len() && earlier[k] == before[i];
                assert(entries[k] == live[i]);
                assert(entries[entries.len() - 1] == live[j]);
            }
        }
    }
}

} // verus!
