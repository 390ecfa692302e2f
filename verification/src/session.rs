//! Per-frame session orchestration: the chord policy that turns key edge
//! state into discrete mode changes, and the session state those changes
//! drive.
//!
//! A chord fires only when all its modifier keys are held and its trigger key
//! was released this frame: the user pressed the trigger while holding the
//! modifiers, then released it. Tying firing to the one-frame release pulse
//! debounces the action to exactly once per physical press-release cycle,
//! not once per frame while held.

use vstd::prelude::*;
use crate::input::{KeyState, KeyTracker};
use crate::select_shader::{next_effect, SelectShader};

verus! {

/// The quit key.
pub const KEY_ESCAPE: u32 = 256;

/// First modifier of every chord.
pub const KEY_LEFT_CONTROL: u32 = 341;

/// Second modifier of every chord.
pub const KEY_LEFT_ALT: u32 = 342;

/// Trigger of the image-advance chord.
pub const KEY_I: u32 = 73;

/// Sub-modifier gating the image- and shader-advance chords.
pub const KEY_N: u32 = 78;

/// Trigger of the overlay-toggle chord.
pub const KEY_O: u32 = 79;

/// Trigger of the shader-advance chord.
pub const KEY_S: u32 = 83;

/// A two-modifier chord fires exactly when both modifiers are held at the
/// moment the trigger key was released this frame.
pub open spec fn chord_fires(s: KeyState, modifier_a: u32, modifier_b: u32, trigger: u32) -> bool {
    s.held.contains(modifier_a) && s.held.contains(modifier_b) && s.released.contains(trigger)
}

/// A chord never fires while its trigger is merely held (no release pulse),
/// and never fires on a release without both modifiers held.
pub proof fn lemma_chord_firing_policy(s: KeyState, modifier_a: u32, modifier_b: u32, trigger: u32)
    ensures
        chord_fires(s, modifier_a, modifier_b, trigger) ==> s.held.contains(modifier_a)
            && s.held.contains(modifier_b) && s.released.contains(trigger),
        !s.released.contains(trigger) ==> !chord_fires(s, modifier_a, modifier_b, trigger),
        !(s.held.contains(modifier_a) && s.held.contains(modifier_b)) ==> !chord_fires(
            s,
            modifier_a,
            modifier_b,
            trigger,
        ),
{
}

/// The overlay-toggle chord: Ctrl+Alt with O released this frame.
pub open spec fn overlay_chord(s: KeyState) -> bool {
    chord_fires(s, KEY_LEFT_CONTROL, KEY_LEFT_ALT, KEY_O)
}

/// The image-advance chord: Ctrl+Alt+N with I released this frame.
pub open spec fn image_chord(s: KeyState) -> bool {
    chord_fires(s, KEY_LEFT_CONTROL, KEY_LEFT_ALT, KEY_I) && s.held.contains(KEY_N)
}

/// The shader-advance chord: Ctrl+Alt+N with S released this frame.
pub open spec fn shader_chord(s: KeyState) -> bool {
    chord_fires(s, KEY_LEFT_CONTROL, KEY_LEFT_ALT, KEY_S) && s.held.contains(KEY_N)
}

/// Which chords fire this frame, in the loop's fixed priority order:
/// overlay toggle, then image advance, then shader advance.
#[derive(Clone, Copy, Debug, PartialEq, Eq, Structural)]
pub struct ChordDecision {
    pub toggle_overlay: bool,
    pub next_image: bool,
    pub next_shader: bool,
}

/// Evaluate all three chords against the tracker's current edge state.
pub fn evaluate_chords(t: &KeyTracker) -> (d: ChordDecision)
    ensures
        d.toggle_overlay == overlay_chord(t@),
        d.next_image == image_chord(t@),
        d.next_shader == shader_chord(t@),
{
    let ctrl = t.is_held(KEY_LEFT_CONTROL);
    let alt = t.is_held(KEY_LEFT_ALT);
    let sub = t.is_held(KEY_N);
    ChordDecision {
        toggle_overlay: ctrl && alt && t.is_released_this_frame(KEY_O),
        next_image: ctrl && alt && sub && t.is_released_this_frame(KEY_I),
        next_shader: ctrl && alt && sub && t.is_released_this_frame(KEY_S),
    }
}

/// Whether a press of this key closes the window (the quit key).
pub fn key_closes_window(key: u32) -> (r: bool)
    ensures
        r == (key == KEY_ESCAPE),
{
    key == KEY_ESCAPE
}

/// The gallery slot after one forward advance: one-directional and cyclic,
/// wrapping past the last slot back to 0.
pub open spec fn spec_next_image_index(index: int, len: int) -> int {
    if index + 1 >= len {
        0
    } else {
        index + 1
    }
}

/// Advance a gallery index one slot forward, wrapping past the end to 0.
pub fn next_image_index(index: usize, len: usize) -> (r: usize)
    requires
        index < len,
    ensures
        r == spec_next_image_index(index as int, len as int),
        r < len,
{
    if index + 1 >= len {
        0
    } else {
        index + 1
    }
}

/// The mutable session context one frame loop threads through its
/// iterations: the selected effect and the gallery slot of the image on
/// display, for a gallery of a fixed number of entries.
#[derive(Clone, Copy, Debug)]
pub struct Session {
    pub effect: SelectShader,
    pub texture_idx: usize,
    pub gallery_len: usize,
}

impl Session {
    /// Well-formedness: the session points at an existing gallery slot.
    pub open spec fn wf(self) -> bool {
        self.texture_idx < self.gallery_len
    }

    /// A fresh session: pass-through effect, first gallery image.
    pub fn new(gallery_len: usize) -> (s: Session)
        requires
            gallery_len >= 1,
        ensures
            s == (Session {
                effect: SelectShader::PassThrough,
                texture_idx: 0,
                gallery_len,
            }),
            s.wf(),
    {
        Session { effect: SelectShader::PassThrough, texture_idx: 0, gallery_len }
    }

    /// Apply one frame's chord decisions to the session state: an
    /// image-advance chord moves one gallery slot forward (wrapping), a
    /// shader-advance chord selects the successor effect. The returned
    /// decision also tells the shell which resources to rebuild and whether
    /// to toggle the window overlay.
    pub fn step_chords(&mut self, t: &KeyTracker) -> (d: ChordDecision)
        requires
            old(self).wf(),
        ensures
            final(self).wf(),
            final(self).gallery_len == old(self).gallery_len,
            d.toggle_overlay == overlay_chord(t@),
            d.next_image == image_chord(t@),
            d.next_shader == shader_chord(t@),
            final(self).texture_idx == if image_chord(t@) {
                spec_next_image_index(old(self).texture_idx as int, old(self).gallery_len as int)
            } else {
                old(self).texture_idx as int
            },
            final(self).effect == if shader_chord(t@) {
                next_effect(old(self).effect)
            } else {
                old(self).effect
            },
    {
        let d = evaluate_chords(t);
        if d.next_image {
            self.texture_idx = next_image_index(self.texture_idx, self.gallery_len);
        }
        if d.next_shader {
            self.effect = self.effect.next();
        }
        d
    }
}

} // verus!
