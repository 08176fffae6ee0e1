use scroll_clicker::{Dispatcher, Event, Key};
use std::cell::Cell;

fn press() -> Event {
    Event::KeyPress(Key::ShiftLeft)
}

fn release() -> Event {
    Event::KeyRelease(Key::ShiftLeft)
}

fn activate<F: Fn()>(d: &mut Dispatcher<(), F>) {
    assert_eq!(d.handle_at(press(), 0), Some(press()));
    assert_eq!(d.handle_at(release(), 10), Some(release()));
    assert_eq!(d.handle_at(press(), 50), Some(press()));
    assert_eq!(d.handle_at(release(), 90), Some(release()));
    assert!(d.is_toggled());
}

#[test]
fn vertical_scroll_is_swallowed_while_toggled() {
    let clicks = Cell::new(0u32);
    let mut d = Dispatcher::new(|| clicks.set(clicks.get() + 1), 50);
    activate(&mut d);
    let wheel = Event::Wheel { delta_x: 0, delta_y: 5 };
    assert_eq!(d.handle_at(wheel, 100), None);
    assert_eq!(clicks.get(), 1);
}

#[test]
fn horizontal_scroll_passes_through() {
    let clicks = Cell::new(0u32);
    let mut d = Dispatcher::new(|| clicks.set(clicks.get() + 1), 50);
    let wheel = Event::Wheel { delta_x: 3, delta_y: 5 };
    assert_eq!(d.handle_at(wheel, 0), Some(wheel));
    activate(&mut d);
    assert_eq!(d.handle_at(wheel, 100), Some(wheel));
    assert_eq!(clicks.get(), 0);
}

#[test]
fn scroll_passes_through_while_not_toggled() {
    let clicks = Cell::new(0u32);
    let mut d = Dispatcher::new(|| clicks.set(clicks.get() + 1), 50);
    let wheel = Event::Wheel { delta_x: 0, delta_y: -2 };
    assert_eq!(d.handle_at(wheel, 0), Some(wheel));
    assert_eq!(clicks.get(), 0);
}

#[test]
fn swallowed_scroll_is_rate_limited() {
    let clicks = Cell::new(0u32);
    let mut d = Dispatcher::new(|| clicks.set(clicks.get() + 1), 50);
    activate(&mut d);
    let wheel = Event::Wheel { delta_x: 0, delta_y: 1 };
    assert_eq!(d.handle_at(wheel, 100), None);
    assert_eq!(d.handle_at(wheel, 110), None);
    assert_eq!(d.handle_at(wheel, 120), None);
    assert_eq!(clicks.get(), 1);
    assert_eq!(d.handle_at(wheel, 150), None);
    assert_eq!(clicks.get(), 2);
}

#[test]
fn other_keys_do_not_drive_the_gesture() {
    let mut d = Dispatcher::new(|| (), 50);
    let other_press = Event::KeyPress(Key::Other);
    let other_release = Event::KeyRelease(Key::Other);
    for (e, at) in [(other_press, 0), (other_release, 10), (other_press, 20), (other_release, 30)] {
        assert_eq!(d.handle_at(e, at), Some(e));
    }
    assert!(!d.is_toggled());
    assert_eq!(d.handle_at(Event::Other, 40), Some(Event::Other));
}

#[test]
fn second_gesture_turns_translation_off() {
    let clicks = Cell::new(0u32);
    let mut d = Dispatcher::new(|| clicks.set(clicks.get() + 1), 50);
    activate(&mut d);
    d.handle_at(press(), 200);
    d.handle_at(release(), 210);
    d.handle_at(press(), 220);
    d.handle_at(release(), 230);
    assert!(!d.is_toggled());
    let wheel = Event::Wheel { delta_x: 0, delta_y: 5 };
    assert_eq!(d.handle_at(wheel, 300), Some(wheel));
    assert_eq!(clicks.get(), 0);
}

#[test]
fn clock_driven_dispatch_swallows_scroll() {
    let clicks = Cell::new(0u32);
    let mut d = Dispatcher::new(|| clicks.set(clicks.get() + 1), 60_000);
    for e in [press(), release(), press(), release()] {
        assert_eq!(d.handle(e), Some(e));
    }
    assert!(d.is_toggled());
    let wheel = Event::Wheel { delta_x: 0, delta_y: 5 };
    assert_eq!(d.handle(wheel), None);
    assert_eq!(d.handle(wheel), None);
    assert_eq!(clicks.get(), 1);
}
