use vstd::prelude::*;

verus! {

/// The keys the library tells apart: the trigger key, and any other.
#[derive(Clone, Copy, Debug, PartialEq, Eq, Structural)]
pub enum Key {
    ShiftLeft,
    Other,
}

/// An input event, reduced to what the dispatch policy reads.
#[derive(Clone, Copy, Debug, PartialEq, Eq, Structural)]
pub enum Event {
    KeyPress(Key),
    KeyRelease(Key),
    Wheel { delta_x: i64, delta_y: i64 },
    Other,
}

impl Event {
    pub fn is_key_press(&self) -> (r: bool)
        ensures
            r == (*self is KeyPress),
    {
        match self {
            Event::KeyPress(_) => true,
            _ => false,
        }
    }

    pub fn is_key_release(&self) -> (r: bool)
        ensures
            r == (*self is KeyRelease),
    {
        match self {
            Event::KeyRelease(_) => true,
            _ => false,
        }
    }
}

/// An event together with the time, in milliseconds, at which it was seen.
#[derive(Clone, Copy, Debug, PartialEq, Eq, Structural)]
pub struct TimedKeyEvent {
    pub event: Event,
    pub time: u64,
}

impl TimedKeyEvent {
    pub fn new(event: Event, time: u64) -> (r: TimedKeyEvent)
        ensures
            r == (TimedKeyEvent { event, time }),
    {
        TimedKeyEvent { event, time }
    }
}

} // verus!
