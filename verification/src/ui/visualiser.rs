//! The frame loop's decisions: which events reach the buffer, when the debounce
//! window ends, and when the next frame is due.

use crate::config::config::Config;
use crate::input::input::{EventModel, InputEvent};
use crate::text::str_eq;
use crate::ui::layout::{box_models, layout_boxes, KeyBox};
use crate::ui::ui::{pushed, shown_entries, width_from, EntryModel, KeyBuffer};
use vstd::prelude::*;
use vstd::string::*;

verus! {

/// Length of the debounce window in milliseconds.
pub const DEBOUNCE_MS: u64 = 250;

/// Time to the next frame while nothing happens, in milliseconds.
pub const IDLE_FRAME_MS: u64 = 33;

/// The labels seen in the current debounce window.
#[derive(Debug)]
pub struct DebounceGate {
    seen: Vec<String>,
}

impl View for DebounceGate {
    type V = Set<Seq<char>>;

    closed spec fn view(&self) -> Set<Seq<char>> {
        Set::new(
            |label: Seq<char>| exists|i: int| 0 <= i < self.seen@.len() && self.seen@[i]@ == label,
        )
    }
}

impl DebounceGate {
    /// A gate that has seen nothing.
    pub fn new() -> (gate: DebounceGate)
        ensures
            gate@ == Set::<Seq<char>>::empty(),
    {
        let gate = DebounceGate { seen: Vec::new() };
        assert(gate@ =~= Set::<Seq<char>>::empty());
        gate
    }

    /// Whether the label was seen in the current window.
    pub fn contains(&self, label: &str) -> (seen: bool)
        ensures
            seen == self@.contains(label@),
    {
        let mut i: usize = 0;
        while i < self.seen.len()
            invariant
                0 <= i <= self.seen@.len(),
                forall|j: int| 0 <= j < i ==> self.seen@[j]@ != label@,
            decreases self.seen@.len() - i,
        {
            if str_eq(self.seen[i].as_str(), label) {
                return true;
            }
            i += 1;
        }
        false
    }

    /// Lets a label through unless it was seen in the current window, and
    /// records it.
    pub fn accept(&mut self, label: &str) -> (accepted: bool)
        ensures
            accepted == !old(self)@.contains(label@),
            final(self)@ == old(self)@.insert(label@),
    {
        if self.contains(label) {
            assert(self@ =~= self@.insert(label@));
            false
        } else {
            let ghost before = self.seen@;
            self.seen.push(String::from_str(label));
            assert(self@ =~= old(self)@.insert(label@)) by {
                let wanted = old(self)@.insert(label@);
                assert forall|l: Seq<char>| wanted.contains(l) implies self@.contains(l) by {
                    if l == label@ {
                        assert(self.seen@[before.len() as int]@ == l);
                    } else {
                        let i = choose|i: int| 0 <= i < before.len() && before[i]@ == l;
                        assert(self.seen@[i]@ == l);
                    }
                }
                assert forall|l: Seq<char>| self@.contains(l) implies wanted.contains(l) by {
                    let i = choose|i: int| 0 <= i < self.seen@.len() && self.seen@[i]@ == l;
                    if i < before.len() {
                        assert(before[i]@ == l);
                    }
                }
            }
            true
        }
    }

    /// Ends the window: forgets every label.
    pub fn tick(&mut self)
        ensures
            final(self)@ == Set::<Seq<char>>::empty(),
    {
        self.seen.clear();
        assert(self@ =~= Set::<Seq<char>>::empty());
    }
}

/// The state of the overlay between frames.
#[derive(Debug)]
pub struct VisualiserApp {
    /// The settings in force.
    pub config: Config,
    /// The visible keys.
    pub key_buffer: KeyBuffer,
    /// The labels seen in the current debounce window.
    pub recently_seen: DebounceGate,
    /// When the debounce window began, in milliseconds.
    pub last_clear: u64,
    /// The width that the last frame had to draw in, in thousandths of a point.
    pub last_ui_width: u32,
}

/// What one frame gives back: the boxes to draw, and how long to wait for the
/// next frame, in milliseconds.
#[derive(Debug)]
pub struct Frame {
    pub boxes: Vec<KeyBox>,
    pub repaint_after_ms: u64,
}

/// The part of the state that events and time act on.
pub ghost struct LoopModel {
    pub entries: Seq<EntryModel>,
    pub seen: Set<Seq<char>>,
    pub last_clear: u64,
}

/// The label that an event carries.
pub open spec fn event_label(event: EventModel) -> Seq<char> {
    match event {
        EventModel::KeyPress(label) => label,
        EventModel::MouseClick(label) => label,
    }
}

/// Whether an event is a mouse click.
pub open spec fn is_click(event: EventModel) -> bool {
    event is MouseClick
}

/// Whether an event reaches the buffer: its label was not seen in the current
/// window.
pub open spec fn accepts(state: LoopModel, event: EventModel) -> bool {
    !state.seen.contains(event_label(event))
}

/// The state after an event: an accepted event is pushed into the buffer and its
/// label recorded; any other changes nothing.
pub open spec fn after_event(state: LoopModel, event: EventModel, now: u64) -> LoopModel {
    if accepts(state, event) {
        LoopModel {
            entries: pushed(state.entries, event_label(event), is_click(event), now),
            seen: state.seen.insert(event_label(event)),
            ..state
        }
    } else {
        state
    }
}

/// The state after a run of events, taken in their order at one time.
pub open spec fn after_events(state: LoopModel, events: Seq<EventModel>, now: u64) -> LoopModel
    decreases events.len(),
{
    if events.len() == 0 {
        state
    } else {
        after_event(after_events(state, events.drop_last(), now), events.last(), now)
    }
}

/// Whether one of a run of events reaches the buffer.
pub open spec fn any_accepted(state: LoopModel, events: Seq<EventModel>, now: u64) -> bool
    decreases events.len(),
{
    if events.len() == 0 {
        false
    } else {
        any_accepted(state, events.drop_last(), now) || accepts(
            after_events(state, events.drop_last(), now),
            events.last(),
        )
    }
}

/// Whether the debounce window is over: more than its length has passed since
/// it began.
pub open spec fn window_over(last_clear: u64, now: u64) -> bool {
    now > last_clear && now - last_clear > DEBOUNCE_MS
}

/// The state once the window was looked at: where it is over, every label is
/// forgotten and a new window begins now.
pub open spec fn after_window(state: LoopModel, now: u64) -> LoopModel {
    if window_over(state.last_clear, now) {
        LoopModel { seen: Set::empty(), last_clear: now, ..state }
    } else {
        state
    }
}

/// The values of a run of events.
pub open spec fn event_models(events: Seq<InputEvent>) -> Seq<EventModel> {
    Seq::new(events.len(), |i: int| events[i]@)
}

impl VisualiserApp {
    /// The events and times that act on this state.
    pub open spec fn loop_model(&self) -> LoopModel {
        LoopModel {
            entries: self.key_buffer@,
            seen: self.recently_seen@,
            last_clear: self.last_clear,
        }
    }

    /// A fresh state: no keys, nothing seen, the debounce window beginning now.
    pub fn new(config: Config, now: u64) -> (app: VisualiserApp)
        ensures
            app.config == config,
            app.loop_model() == (LoopModel {
                entries: Seq::empty(),
                seen: Set::empty(),
                last_clear: now,
            }),
            app.last_ui_width == 0,
    {
        VisualiserApp {
            config,
            key_buffer: KeyBuffer::new(),
            recently_seen: DebounceGate::new(),
            last_clear: now,
            last_ui_width: 0,
        }
    }

    /// Takes one event at time `now`: pushes it into the buffer unless its label
    /// was seen in the current debounce window, and tells whether it did.
    pub fn handle_event(&mut self, event: &InputEvent, now: u64) -> (accepted: bool)
        ensures
            accepted == accepts(old(self).loop_model(), event@),
            final(self).loop_model() == after_event(old(self).loop_model(), event@, now),
            final(self).config == old(self).config,
            final(self).last_ui_width == old(self).last_ui_width,
    {
        match event {
            InputEvent::KeyPress(label) => {
                if self.recently_seen.accept(label.as_str()) {
                    self.key_buffer.push_key("", label.as_str(), false, now);
                    true
                } else {
                    assert(self.recently_seen@ =~= old(self).recently_seen@);
                    false
                }
            },
            InputEvent::MouseClick(label) => {
                if self.recently_seen.accept(label.as_str()) {
                    self.key_buffer.push_key("", label.as_str(), true, now);
                    true
                } else {
                    assert(self.recently_seen@ =~= old(self).recently_seen@);
                    false
                }
            },
        }
    }

    /// Ends the debounce window where more than its length has passed since it
    /// began.
    pub fn end_window(&mut self, now: u64)
        ensures
            final(self).loop_model() == after_window(old(self).loop_model(), now),
            final(self).config == old(self).config,
            final(self).last_ui_width == old(self).last_ui_width,
    {
        if now > self.last_clear && now - self.last_clear > DEBOUNCE_MS {
            self.recently_seen.tick();
            self.last_clear = now;
        }
    }

    /// Computes one frame at time `now`: takes the events that have arrived, in
    /// their order; ends the debounce window where it is over; then lets the
    /// buffer age and lays out what fits into `width`, ending at `right_edge`.
    /// The next frame is due at once where an event reached the buffer, and after
    /// the idle time otherwise.
    pub fn update(
        &mut self,
        events: &Vec<InputEvent>,
        width: u32,
        right_edge: i32,
        now: u64,
    ) -> (frame: Frame)
        ensures
            final(self).config == old(self).config,
            final(self).last_ui_width == width,
            ({
                let taken = after_events(old(self).loop_model(), event_models(events@), now);
                let windowed = after_window(taken, now);
                &&& final(self).loop_model() == (LoopModel {
                    entries: shown_entries(taken.entries, old(self).config.styles@, width, now),
                    ..windowed
                })
                &&& width_from(final(self).key_buffer@, old(self).config.styles@, 0) <= width
                &&& frame.boxes@.len() == final(self).key_buffer@.len()
                &&& box_models(frame.boxes@) == layout_boxes(
                    final(self).key_buffer@,
                    old(self).config.styles@,
                    right_edge as int,
                )
                &&& frame.repaint_after_ms == if any_accepted(
                    old(self).loop_model(),
                    event_models(events@),
                    now,
                ) {
                    0
                } else {
                    IDLE_FRAME_MS
                }
            }),
    {
        let ghost start = self.loop_model();
        let ghost all = event_models(events@);
        let mut needs_repaint = false;
        let mut i: usize = 0;
        assert(all.take(0) =~= Seq::empty());
        while i < events.len()
            invariant
                0 <= i <= events@.len(),
                all == event_models(events@),
                self.config == old(self).config,
                self.last_ui_width == old(self).last_ui_width,
                self.loop_model() == after_events(start, all.take(i as int), now),
                needs_repaint == any_accepted(start, all.take(i as int), now),
            decreases events@.len() - i,
        {
            proof {
                let upto = all.take(i as int + 1);
                assert(upto.drop_last() =~= all.take(i as int));
                assert(upto.last() == events@[i as int]@);
            }
            if self.handle_event(&events[i], now) {
                needs_repaint = true;
            }
            i += 1;
        }
        assert(all.take(i as int) =~= all);
        self.end_window(now);
        self.last_ui_width = width;
        let boxes = self.key_buffer.render(&self.config, width, right_edge, now);
        Frame {
            boxes,
            repaint_after_ms: if needs_repaint {
                0
            } else {
                IDLE_FRAME_MS
            },
        }
    }
}

/// Of two presses of one label in one debounce window only the first reaches the
/// buffer: the second changes nothing.
pub proof fn lemma_second_press_is_dropped(
    state: LoopModel,
    event: EventModel,
    first: u64,
    second: u64,
)
    ensures
        !accepts(after_event(state, event, first), event),
        after_event(after_event(state, event, first), event, second) == after_event(
            state,
            event,
            first,
        ),
{
}

/// A label that was not seen in the window reaches the buffer.
pub proof fn lemma_first_press_is_accepted(state: LoopModel, event: EventModel, now: u64)
    requires
        !state.seen.contains(event_label(event)),
    ensures
        accepts(state, event),
        after_event(state, event, now).entries == pushed(
            state.entries,
            event_label(event),
            is_click(event),
            now,
        ),
{
}

/// Once the debounce window is over, a label that was dropped in it reaches the
/// buffer again.
pub proof fn lemma_press_after_window_is_accepted(
    state: LoopModel,
    event: EventModel,
    first: u64,
    later: u64,
)
    requires
        window_over(state.last_clear, later),
    ensures
        ({
            let pressed = after_event(state, event, first);
            let fresh = after_window(pressed, later);
            &&& accepts(fresh, event)
            &&& after_event(fresh, event, later).entries == pushed(
                pressed.entries,
                event_label(event),
                is_click(event),
                later,
            )
        }),
{
}

} // verus!
