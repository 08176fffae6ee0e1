use crate::event::{Event, Key, TimedKeyEvent};
use crate::throttle::{may_fire, throttle_step, Throttle, ThrottleState};
use crate::toggle::{gesture_step, GestureState, Toggle};
use vstd::prelude::*;

verus! {

/// A press or release of the trigger key.
pub open spec fn is_trigger(e: Event) -> bool {
    e == Event::KeyPress(Key::ShiftLeft) || e == Event::KeyRelease(Key::ShiftLeft)
}

/// Scroll motion with no horizontal part: what is turned into clicks while
/// the toggle is on.
pub open spec fn is_convertible(e: Event) -> bool {
    match e {
        Event::Wheel { delta_x, delta_y: _ } => delta_x == 0,
        _ => false,
    }
}

/// Feeds trigger-key events to a gesture detector and, while its toggle is
/// on, swallows vertical scroll events and asks a rate limiter to run the
/// click action for each.
#[verifier::reject_recursive_types(T)]
#[verifier::reject_recursive_types(F)]
pub struct Dispatcher<T, F: Fn() -> T> {
    toggle: Toggle,
    clicker: Throttle<T, F>,
}

impl<T, F: Fn() -> T> Dispatcher<T, F> {
    /// The gesture detector's state.
    pub closed spec fn gesture(&self) -> GestureState {
        self.toggle@
    }

    /// The rate limiter's state.
    pub closed spec fn limiter(&self) -> ThrottleState {
        self.clicker@
    }

    /// The click action.
    pub closed spec fn action(&self) -> F {
        self.clicker.action()
    }

    pub closed spec fn wf(&self) -> bool {
        self.toggle.wf()
    }

    /// A dispatcher whose click action `f` runs at most once every
    /// `min_duration` milliseconds.
    pub fn new(f: F, min_duration: u64) -> (r: Self)
        ensures
            r.wf(),
            r.action() == f,
            r.gesture() == (GestureState { toggled: false, events: Seq::empty() }),
            r.limiter() == (ThrottleState { min_duration, previous: None }),
    {
        Dispatcher { toggle: Toggle::new(), clicker: Throttle::new(f, min_duration) }
    }

    /// Whether scroll events are being turned into clicks.
    pub fn is_toggled(&self) -> (r: bool)
        ensures
            r == self.gesture().toggled,
    {
        self.toggle.is_toggled()
    }

    fn is_trigger_event(event: &Event) -> (r: bool)
        ensures
            r == is_trigger(*event),
    {
        *event == Event::KeyPress(Key::ShiftLeft) || *event == Event::KeyRelease(Key::ShiftLeft)
    }

    fn is_convertible_event(event: &Event) -> (r: bool)
        ensures
            r == is_convertible(*event),
    {
        match event {
            Event::Wheel { delta_x, delta_y: _ } => *delta_x == 0,
            _ => false,
        }
    }

    /// Handles an event seen at time `now`. Returns the event when it is to
    /// pass on, or `None` when it is swallowed.
    pub fn handle_at(&mut self, event: Event, now: u64) -> (r: Option<Event>)
        requires
            old(self).wf(),
            old(self).action().requires(()),
        ensures
            final(self).wf(),
            final(self).action() == old(self).action(),
            final(self).gesture() == if is_trigger(event) {
                gesture_step(old(self).gesture(), TimedKeyEvent { event, time: now })
            } else {
                old(self).gesture()
            },
            final(self).gesture().toggled && is_convertible(event) ==> {
                &&& r is None
                &&& final(self).limiter() == throttle_step(old(self).limiter(), now)
            },
            !(final(self).gesture().toggled && is_convertible(event)) ==> {
                &&& r == Some(event)
                &&& final(self).limiter() == old(self).limiter()
            },
    {
        if Self::is_trigger_event(&event) {
            self.toggle.track_double_press_at(event, now);
        }
        if self.toggle.is_toggled() && Self::is_convertible_event(&event) {
            let _ = self.clicker.call_at(now);
            None
        } else {
            Some(event)
        }
    }

    /// Handles an event seen now, reading the time from the detector's and
    /// the limiter's clocks.
    pub fn handle(&mut self, event: Event) -> (r: Option<Event>)
        requires
            old(self).wf(),
            old(self).action().requires(()),
        ensures
            final(self).wf(),
            final(self).action() == old(self).action(),
            is_trigger(event) ==> exists|t: u64|
                final(self).gesture() == gesture_step(old(self).gesture(), TimedKeyEvent { event, time: t }),
            !is_trigger(event) ==> final(self).gesture() == old(self).gesture(),
            final(self).gesture().toggled && is_convertible(event) ==> {
                &&& r is None
                &&& exists|t: u64| final(self).limiter() == throttle_step(old(self).limiter(), t)
            },
            !(final(self).gesture().toggled && is_convertible(event)) ==> {
                &&& r == Some(event)
                &&& final(self).limiter() == old(self).limiter()
            },
    {
        let ghost mut seen: u64 = 0;
        if Self::is_trigger_event(&event) {
            self.toggle.track_double_press(event);
            proof {
                seen = choose|t: u64| self.toggle@ == gesture_step(old(self).gesture(), (TimedKeyEvent { event, time: t }));
            }
        }
        assert(is_trigger(event) ==> self.gesture() == gesture_step(old(self).gesture(), (TimedKeyEvent { event, time: seen })));
        if self.toggle.is_toggled() && Self::is_convertible_event(&event) {
            let _ = self.clicker.call();
            None
        } else {
            Some(event)
        }
    }
}

} // verus!
