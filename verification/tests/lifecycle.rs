use mos_6500::emulator::io::event::{Event, Key};
use mos_6500::emulator::NES_MASTER_CLOCK_HZ;
use mos_6500::ui::lifecycle::Lifecycle;

#[test]
fn lifecycle_starts_stopped_at_master_clock() {
    let lifecycle = Lifecycle::new();
    assert!(!lifecycle.is_running());
    assert!(!lifecycle.speed_is_unlocked());
    assert_eq!(lifecycle.target_hz(), 21_477_272);
    assert_eq!(NES_MASTER_CLOCK_HZ, 21_477_272);
}

#[test]
fn lifecycle_follows_keys() {
    let mut lifecycle = Lifecycle::new();
    lifecycle.start();
    assert!(lifecycle.is_running());
    lifecycle.handle_event(Event::KeyDown(Key::Tab));
    assert!(lifecycle.speed_is_unlocked());
    lifecycle.handle_event(Event::KeyDown(Key::Tab));
    assert!(!lifecycle.speed_is_unlocked());
    lifecycle.handle_event(Event::KeyDown(Key::Minus));
    assert_eq!(lifecycle.target_hz(), 10_738_636);
    lifecycle.handle_event(Event::KeyDown(Key::Equals));
    lifecycle.handle_event(Event::KeyDown(Key::Equals));
    assert_eq!(lifecycle.target_hz(), 42_954_544);
    lifecycle.handle_event(Event::KeyDown(Key::Num0));
    assert_eq!(lifecycle.target_hz(), 21_477_272);
    lifecycle.handle_event(Event::KeyUp(Key::Escape));
    lifecycle.handle_event(Event::Quit);
    lifecycle.handle_event(Event::KeyDown(Key::A));
    assert!(lifecycle.is_running());
    lifecycle.handle_event(Event::KeyDown(Key::Escape));
    assert!(!lifecycle.is_running());
}

#[test]
fn lifecycle_refuses_to_double_past_the_limit() {
    let mut lifecycle = Lifecycle::new();
    let mut doublings = 0;
    while lifecycle.can_handle(Event::KeyDown(Key::Equals)) {
        lifecycle.handle_event(Event::KeyDown(Key::Equals));
        doublings += 1;
    }
    assert_eq!(doublings, 39);
    assert!(lifecycle.can_handle(Event::KeyDown(Key::Minus)));
}
