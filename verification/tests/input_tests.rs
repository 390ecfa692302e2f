use effect_viewer::input::KeyTracker;
use effect_viewer::session::{
    evaluate_chords, key_closes_window, KEY_ESCAPE, KEY_I, KEY_LEFT_ALT, KEY_LEFT_CONTROL, KEY_N,
    KEY_O, KEY_S,
};

#[test]
fn release_pulse_lasts_exactly_one_poll_cycle() {
    let mut t = KeyTracker::new();

    // Cycle 1: the key is pressed and released.
    t.begin_poll_cycle();
    t.on_press(KEY_O);
    t.on_release(KEY_O);
    assert!(t.is_released_this_frame(KEY_O));
    assert!(!t.is_held(KEY_O));

    // Cycle 2: no new release, so the pulse is gone.
    t.begin_poll_cycle();
    assert!(!t.is_released_this_frame(KEY_O));

    // Cycle 3: still gone, until the next release.
    t.begin_poll_cycle();
    assert!(!t.is_released_this_frame(KEY_O));
    t.on_press(KEY_O);
    assert!(!t.is_released_this_frame(KEY_O));
    t.on_release(KEY_O);
    assert!(t.is_released_this_frame(KEY_O));
}

#[test]
fn press_marks_held_until_release() {
    let mut t = KeyTracker::new();
    t.begin_poll_cycle();
    assert!(!t.is_held(KEY_N));
    t.on_press(KEY_N);
    assert!(t.is_held(KEY_N));

    // Held state carries across poll cycles.
    t.begin_poll_cycle();
    assert!(t.is_held(KEY_N));

    t.on_release(KEY_N);
    assert!(!t.is_held(KEY_N));
}

#[test]
fn chord_fires_only_on_trigger_release_with_both_modifiers() {
    let mut t = KeyTracker::new();
    t.begin_poll_cycle();
    t.on_press(KEY_LEFT_CONTROL);
    t.on_press(KEY_LEFT_ALT);
    t.on_press(KEY_O);

    // Trigger held but not released: nothing fires.
    let d = evaluate_chords(&t);
    assert!(!d.toggle_overlay);
    assert!(!d.next_image);
    assert!(!d.next_shader);

    // Trigger released with both modifiers held: the overlay chord fires.
    t.on_release(KEY_O);
    let d = evaluate_chords(&t);
    assert!(d.toggle_overlay);
    assert!(!d.next_image);
    assert!(!d.next_shader);
}

#[test]
fn chord_does_not_fire_without_both_modifiers() {
    let mut t = KeyTracker::new();
    t.begin_poll_cycle();
    t.on_press(KEY_LEFT_CONTROL);
    t.on_press(KEY_O);
    t.on_release(KEY_O);

    // Only one modifier held at the moment of release: no firing.
    let d = evaluate_chords(&t);
    assert!(!d.toggle_overlay);

    // No modifiers at all: still nothing.
    let mut t2 = KeyTracker::new();
    t2.begin_poll_cycle();
    t2.on_press(KEY_O);
    t2.on_release(KEY_O);
    let d2 = evaluate_chords(&t2);
    assert!(!d2.toggle_overlay);
    assert!(!d2.next_image);
    assert!(!d2.next_shader);
}

#[test]
fn chord_fires_once_per_press_release_cycle() {
    let mut t = KeyTracker::new();
    t.begin_poll_cycle();
    t.on_press(KEY_LEFT_CONTROL);
    t.on_press(KEY_LEFT_ALT);
    t.on_press(KEY_N);
    t.on_press(KEY_S);
    t.on_release(KEY_S);
    let d = evaluate_chords(&t);
    assert!(d.next_shader);

    // The next cycle sees the same held modifiers but no new release:
    // the action does not repeat while the keys stay down.
    t.begin_poll_cycle();
    let d = evaluate_chords(&t);
    assert!(!d.next_shader);
}

#[test]
fn image_and_shader_chords_need_the_sub_modifier() {
    let mut t = KeyTracker::new();
    t.begin_poll_cycle();
    t.on_press(KEY_LEFT_CONTROL);
    t.on_press(KEY_LEFT_ALT);
    t.on_press(KEY_I);
    t.on_release(KEY_I);

    // Without N held, the image chord does not fire.
    let d = evaluate_chords(&t);
    assert!(!d.next_image);

    t.begin_poll_cycle();
    t.on_press(KEY_N);
    t.on_press(KEY_I);
    t.on_release(KEY_I);
    let d = evaluate_chords(&t);
    assert!(d.next_image);
}

#[test]
fn escape_is_the_quit_key() {
    assert!(key_closes_window(KEY_ESCAPE));
    assert!(!key_closes_window(KEY_O));
    assert!(!key_closes_window(KEY_LEFT_CONTROL));
}
