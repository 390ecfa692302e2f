use effect_viewer::gallery::{gallery_len, gallery_path, load_test_image};
use effect_viewer::input::KeyTracker;
use effect_viewer::session::{
    next_image_index, Session, KEY_I, KEY_LEFT_ALT, KEY_LEFT_CONTROL, KEY_N, KEY_S,
};
use effect_viewer::texture::Texture;
use effect_viewer::error::ResourceError;
use effect_viewer::SelectShader;

/// A tracker mid-cycle with Ctrl+Alt+N held and the given trigger just
/// released: the state in which an advance chord fires.
fn chord_tracker(trigger: u32) -> KeyTracker {
    let mut t = KeyTracker::new();
    t.begin_poll_cycle();
    t.on_press(KEY_LEFT_CONTROL);
    t.on_press(KEY_LEFT_ALT);
    t.on_press(KEY_N);
    t.on_press(trigger);
    t.on_release(trigger);
    t
}

#[test]
fn gallery_advances_wrap_after_the_last_slot() {
    // A 4-entry gallery starting at slot 0: three image-advance chords land
    // on 1, 2, 3; a fourth lands back on 0.
    let mut s = Session::new(4);
    assert_eq!(s.texture_idx, 0);
    for expected in [1, 2, 3, 0] {
        let t = chord_tracker(KEY_I);
        let d = s.step_chords(&t);
        assert!(d.next_image);
        assert!(!d.next_shader);
        assert!(!d.toggle_overlay);
        assert_eq!(s.texture_idx, expected);
    }
    assert_eq!(s.effect, SelectShader::PassThrough);
}

#[test]
fn shader_advances_walk_the_effect_ring() {
    let mut s = Session::new(4);
    let expected = [
        SelectShader::Test,
        SelectShader::Pixel,
        SelectShader::Ascii,
        SelectShader::EdgeDetect,
        SelectShader::PassThrough,
    ];
    for e in expected {
        let t = chord_tracker(KEY_S);
        let d = s.step_chords(&t);
        assert!(d.next_shader);
        assert!(!d.next_image);
        assert_eq!(s.effect, e);
    }
    assert_eq!(s.texture_idx, 0);
}

#[test]
fn idle_frame_changes_nothing() {
    let mut s = Session::new(4);
    let mut t = KeyTracker::new();
    t.begin_poll_cycle();
    let d = s.step_chords(&t);
    assert!(!d.toggle_overlay && !d.next_image && !d.next_shader);
    assert_eq!(s.texture_idx, 0);
    assert_eq!(s.effect, SelectShader::PassThrough);
}

#[test]
fn next_image_index_wraps_to_zero() {
    assert_eq!(next_image_index(0, 4), 1);
    assert_eq!(next_image_index(2, 4), 3);
    assert_eq!(next_image_index(3, 4), 0);
    assert_eq!(next_image_index(0, 1), 0);
}

#[test]
fn load_test_image_wraps_past_the_end() {
    let mut idx: usize = gallery_len();
    let p = load_test_image(&mut idx);
    assert_eq!(idx, 0);
    assert_eq!(p, "assets/test_image_acerola_example.png");

    let mut idx: usize = 16;
    let p = load_test_image(&mut idx);
    assert_eq!(idx, 16);
    assert_eq!(p, "assets/test_image_train.jpg");

    let mut idx: usize = 3;
    let p = load_test_image(&mut idx);
    assert_eq!(idx, 3);
    assert_eq!(p, "assets/test_image_destiny_2_poster.png");
}

#[test]
fn gallery_has_seventeen_fixed_paths() {
    assert_eq!(gallery_len(), 17);
    assert_eq!(gallery_path(0), "assets/test_image_acerola_example.png");
    assert_eq!(gallery_path(9), "assets/test_image_doom_slayer.png");
    assert_eq!(gallery_path(16), "assets/test_image_train.jpg");
}

#[test]
fn texture_reports_its_handle_and_dimensions() {
    let t = Texture::new(7, 1024, 768);
    assert_eq!(t.id(), 7);
    assert_eq!(t.get_texture_size(), (1024, 768));
}

#[test]
fn resource_errors_carry_their_diagnostics() {
    let d = ResourceError::Decode(String::from("unreadable file"));
    assert!(d.is_decode());
    assert_eq!(d.message(), "unreadable file");

    let c = ResourceError::Compile(String::from("syntax error in fragment stage"));
    assert!(!c.is_decode());
    assert_eq!(c.message(), "syntax error in fragment stage");
}
