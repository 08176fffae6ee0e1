use crate::clock::{elapsed, elapsed_ms, Clock};
use crate::event::{Event, TimedKeyEvent};
use circular_buffer::CircularBuffer;
use vstd::prelude::*;

verus! {

/// Longest time, in milliseconds, from the first press to the last release
/// of a double press.
pub const GESTURE_WINDOW_MS: u64 = 250;

/// `circular_buffer::CircularBuffer`, opaque; what it holds is given by
/// `buffered_events` and the wrappers below.
#[verifier::external_type_specification]
#[verifier::external_body]
#[verifier::reject_recursive_types(T)]
pub struct ExCircularBuffer<const N: usize, T>(CircularBuffer<N, T>);

/// The events held by a gesture buffer, front first.
pub uninterp spec fn buffered_events(b: CircularBuffer<4, TimedKeyEvent>) -> Seq<TimedKeyEvent>;

/// Appends `e` to `s`, dropping the front event first when `s` already holds
/// four or more.
pub open spec fn push_bounded(s: Seq<TimedKeyEvent>, e: TimedKeyEvent) -> Seq<TimedKeyEvent> {
    if s.len() >= 4 {
        s.drop_first().push(e)
    } else {
        s.push(e)
    }
}

/// Relies on `CircularBuffer::new`: the new buffer is empty.
#[verifier::external_body]
fn new_gesture_buffer() -> (r: CircularBuffer<4, TimedKeyEvent>)
    ensures
        buffered_events(r) == Seq::<TimedKeyEvent>::empty(),
{
    CircularBuffer::new()
}

/// Relies on `CircularBuffer::push_back`: appends at the back and, when the
/// buffer is at capacity, drops the front item.
#[verifier::external_body]
fn push_gesture_event(b: &mut CircularBuffer<4, TimedKeyEvent>, e: TimedKeyEvent)
    ensures
        buffered_events(*final(b)) == push_bounded(buffered_events(*old(b)), e),
{
    b.push_back(e);
}

/// Relies on `CircularBuffer::get`: the item at `i`, counted from the front,
/// or `None` past the end.
#[verifier::external_body]
fn get_gesture_event(b: &CircularBuffer<4, TimedKeyEvent>, i: usize) -> (r: Option<TimedKeyEvent>)
    ensures
        i < buffered_events(*b).len() ==> r == Some(buffered_events(*b)[i as int]),
        i >= buffered_events(*b).len() ==> r is None,
{
    b.get(i).copied()
}

/// Relies on `CircularBuffer::clear`: the buffer is left empty.
#[verifier::external_body]
fn clear_gesture_buffer(b: &mut CircularBuffer<4, TimedKeyEvent>)
    ensures
        buffered_events(*final(b)) == Seq::<TimedKeyEvent>::empty(),
{
    b.clear()
}

/// True when `s` holds exactly press, release, press, release, front first,
/// and the last release comes at most the gesture window after the first
/// press.
pub open spec fn is_double_press(s: Seq<TimedKeyEvent>) -> bool {
    &&& s.len() == 4
    &&& s[0].event is KeyPress
    &&& s[1].event is KeyRelease
    &&& s[2].event is KeyPress
    &&& s[3].event is KeyRelease
    &&& elapsed(s[0].time, s[3].time) <= GESTURE_WINDOW_MS
}

/// The state of a gesture detector: the toggle bit and the buffered events,
/// oldest first.
pub struct GestureState {
    pub toggled: bool,
    pub events: Seq<TimedKeyEvent>,
}

/// What tracking one event does to a gesture detector.
pub open spec fn gesture_step(s: GestureState, e: TimedKeyEvent) -> GestureState {
    let pushed = push_bounded(s.events, e);
    if is_double_press(pushed) {
        GestureState { toggled: !s.toggled, events: Seq::empty() }
    } else {
        GestureState { toggled: s.toggled, events: pushed }
    }
}

/// The state after tracking each of `events`, in order, from a new detector.
pub open spec fn gesture_run(events: Seq<TimedKeyEvent>) -> GestureState
    decreases events.len(),
{
    if events.len() == 0 {
        GestureState { toggled: false, events: Seq::empty() }
    } else {
        gesture_step(gesture_run(events.drop_last()), events.last())
    }
}

/// For any sequence of tracked events, the buffer never holds more than four
/// events, and tracking the event at `i` flips the toggle bit exactly when
/// the last four buffered events, that one included, are press, release,
/// press, release within the gesture window; otherwise the bit stays.
pub proof fn lemma_toggle_flips_iff_double_press(events: Seq<TimedKeyEvent>, i: int)
    requires
        0 <= i < events.len(),
    ensures
        gesture_run(events.take(i)).events.len() <= 4,
        gesture_run(events.take(i + 1)).toggled != gesture_run(events.take(i)).toggled
            <==> is_double_press(push_bounded(gesture_run(events.take(i)).events, events[i])),
    decreases i,
{
    assert(events.take(i + 1).drop_last() =~= events.take(i));
    if i > 0 {
        lemma_toggle_flips_iff_double_press(events, i - 1);
        assert(events.take(i).drop_last() =~= events.take(i - 1));
    }
}

/// Recognises a double press of the trigger key and flips a toggle bit on
/// each one.
pub struct Toggle {
    toggled: bool,
    buffer: CircularBuffer<4, TimedKeyEvent>,
    clock: Clock,
}

impl View for Toggle {
    type V = GestureState;

    closed spec fn view(&self) -> GestureState {
        GestureState { toggled: self.toggled, events: buffered_events(self.buffer) }
    }
}

impl Toggle {
    /// The buffer never holds more than four events.
    pub open spec fn wf(&self) -> bool {
        self@.events.len() <= 4
    }

    pub fn new() -> (r: Toggle)
        ensures
            r.wf(),
            r@ == (GestureState { toggled: false, events: Seq::empty() }),
    {
        Toggle { toggled: false, buffer: new_gesture_buffer(), clock: Clock::start() }
    }

    fn toggle(&mut self)
        ensures
            final(self)@ == (GestureState { toggled: !old(self)@.toggled, events: old(self)@.events }),
    {
        self.toggled = !self.toggled;
    }

    /// The toggle bit. Reading it changes nothing, so two reads with no
    /// tracked event between them agree.
    pub fn is_toggled(&self) -> (r: bool)
        ensures
            r == self@.toggled,
    {
        self.toggled
    }

    /// Tracks a press or release of the trigger key seen at time `now`.
    pub fn track_double_press_at(&mut self, event: Event, now: u64)
        requires
            old(self).wf(),
        ensures
            final(self).wf(),
            final(self)@ == gesture_step(old(self)@, TimedKeyEvent { event, time: now }),
            final(self)@.toggled != old(self)@.toggled <==> is_double_press(
                push_bounded(old(self)@.events, TimedKeyEvent { event, time: now }),
            ),
    {
        push_gesture_event(&mut self.buffer, TimedKeyEvent::new(event, now));
        let ghost pushed = buffered_events(self.buffer);
        let first = get_gesture_event(&self.buffer, 0);
        let second = get_gesture_event(&self.buffer, 1);
        let third = get_gesture_event(&self.buffer, 2);
        let fourth = get_gesture_event(&self.buffer, 3);
        if let (Some(a), Some(b), Some(c), Some(d)) = (first, second, third, fourth) {
            if a.event.is_key_press() && b.event.is_key_release() && c.event.is_key_press()
                && d.event.is_key_release() && elapsed_ms(a.time, d.time) <= GESTURE_WINDOW_MS {
                assert(is_double_press(pushed));
                clear_gesture_buffer(&mut self.buffer);
                self.toggle();
            }
        }
    }

    /// Tracks a press or release of the trigger key seen now.
    pub fn track_double_press(&mut self, event: Event)
        requires
            old(self).wf(),
        ensures
            final(self).wf(),
            exists|t: u64| final(self)@ == gesture_step(old(self)@, TimedKeyEvent { event, time: t }),
    {
        let now = self.clock.now_ms();
        self.track_double_press_at(event, now);
    }
}

} // verus!
