//! Double-press gesture detection and rate-limited translation of scroll
//! events into clicks.
mod clock;
mod dispatcher;
mod event;
mod throttle;
mod toggle;

pub use clock::{elapsed, Clock};
pub use dispatcher::{is_convertible, is_trigger, Dispatcher};

pub use event::{Event, Key, TimedKeyEvent};
pub use throttle::{
    fires_at, lemma_runs_spaced, may_fire, nondecreasing, throttle_run, throttle_step, Throttle,
    ThrottleState,
};
pub use toggle::{
    gesture_run, gesture_step, is_double_press, lemma_toggle_flips_iff_double_press, push_bounded,
    GestureState, Toggle, GESTURE_WINDOW_MS,
};

