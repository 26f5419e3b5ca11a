use apm_counter::Config;
use apm_counter::EventClass;
use apm_counter::InputEvent;
use apm_counter::DEFAULT_LONG_WINDOW_TICKS;
use apm_counter::DEFAULT_SHORT_WINDOW_TICKS;
use apm_counter::DEFAULT_TICK_PERIOD_MS;
use apm_counter::KEY_END;

#[test]
fn presses_and_motion_are_ignored() {
    assert_eq!(InputEvent::KeyPress(3).classify(KEY_END), EventClass::Ignored);
    assert_eq!(InputEvent::KeyPress(KEY_END).classify(KEY_END), EventClass::Ignored);
    assert_eq!(InputEvent::ButtonPress.classify(KEY_END), EventClass::Ignored);
    assert_eq!(InputEvent::Other.classify(KEY_END), EventClass::Ignored);
}

#[test]
fn releases_are_actions() {
    assert_eq!(InputEvent::KeyRelease(3).classify(KEY_END), EventClass::Action);
    assert_eq!(InputEvent::KeyRelease(0).classify(KEY_END), EventClass::Action);
    assert_eq!(InputEvent::KeyRelease(u64::MAX).classify(KEY_END), EventClass::Action);
    assert_eq!(InputEvent::ButtonRelease.classify(KEY_END), EventClass::Action);
}

#[test]
fn release_of_the_shutdown_key_is_a_shutdown() {
    assert_eq!(InputEvent::KeyRelease(KEY_END).classify(KEY_END), EventClass::Shutdown);
    assert_eq!(InputEvent::KeyRelease(42).classify(42), EventClass::Shutdown);
    assert_eq!(InputEvent::KeyRelease(KEY_END).classify(42), EventClass::Action);
}

#[test]
fn default_settings() {
    let c = Config::default();
    assert_eq!(c.tick_period_ms, 100);
    assert_eq!(c.short_window_ticks, 600);
    assert_eq!(c.long_window_ticks, 216_000);
    assert_eq!(c.shutdown_key, KEY_END);
    assert_eq!(c, Config::standard());
    assert_eq!(DEFAULT_TICK_PERIOD_MS, 100);
    assert_eq!(DEFAULT_SHORT_WINDOW_TICKS, 600);
    assert_eq!(DEFAULT_LONG_WINDOW_TICKS, 216_000);
}
