//! The fixed gallery of sample images the session cycles through.
//!
//! The gallery is one-directional and cyclic: the session only advances
//! forward, and an index past the last entry wraps to the first. There is no
//! "previous image" operation.

use vstd::prelude::*;

verus! {

/// The gallery's image paths, in their fixed order.
pub open spec fn gallery_paths() -> Seq<Seq<char>> {
    seq![
        "assets/test_image_acerola_example.png"@,
        "assets/test_image_astroneer_gameplay.png"@,
        "assets/test_image_chrome_screenshot.png"@,
        "assets/test_image_destiny_2_poster.png"@,
        "assets/test_image_destiny_2_rasputin.png"@,
        "assets/test_image_destiny_2_witness.png"@,
        "assets/test_image_dont_starve_gameplay.png"@,
        "assets/test_image_dont_starve_poster.png"@,
        "assets/test_image_doom_demon.png"@,
        "assets/test_image_doom_slayer.png"@,
        "assets/test_image_elden_ring_gameplay.png"@,
        "assets/test_image_elden_ring_poster.png"@,
        "assets/test_image_hollow_knight_gameplay.png"@,
        "assets/test_image_hollow_knight_poster.png"@,
        "assets/test_image_titanfall_2_poster_1.png"@,
        "assets/test_image_titanfall_2_poster_2.png"@,
        "assets/test_image_train.jpg"@,
    ]
}

/// How many images the gallery holds.
pub open spec fn spec_gallery_len() -> int {
    gallery_paths().len() as int
}

/// How many images the gallery holds.
pub fn gallery_len() -> (n: usize)
    ensures
        n == spec_gallery_len(),
{
    17
}

/// The gallery slot a requested index lands on: an index past the last entry
/// wraps to the first.
pub open spec fn wrapped_index(index: int) -> int {
    if index >= spec_gallery_len() {
        0
    } else {
        index
    }
}

/// The path of the gallery image in the given slot.
pub fn gallery_path(index: usize) -> (p: &'static str)
    requires
        index < spec_gallery_len(),
    ensures
        p@ == gallery_paths()[index as int],
{
    match index {
        0 => "assets/test_image_acerola_example.png",
        1 => "assets/test_image_astroneer_gameplay.png",
        2 => "assets/test_image_chrome_screenshot.png",
        3 => "assets/test_image_destiny_2_poster.png",
        4 => "assets/test_image_destiny_2_rasputin.png",
        5 => "assets/test_image_destiny_2_witness.png",
        6 => "assets/test_image_dont_starve_gameplay.png",
        7 => "assets/test_image_dont_starve_poster.png",
        8 => "assets/test_image_doom_demon.png",
        9 => "assets/test_image_doom_slayer.png",
        10 => "assets/test_image_elden_ring_gameplay.png",
        11 => "assets/test_image_elden_ring_poster.png",
        12 => "assets/test_image_hollow_knight_gameplay.png",
        13 => "assets/test_image_hollow_knight_poster.png",
        14 => "assets/test_image_titanfall_2_poster_1.png",
        15 => "assets/test_image_titanfall_2_poster_2.png",
        _ => "assets/test_image_train.jpg",
    }
}

/// Select the test image for the given gallery index, wrapping past the last
/// entry back to slot 0. The index is updated to the slot actually used, and
/// the returned path is that slot's image, which the shell decodes and
/// uploads.
pub fn load_test_image(index: &mut usize) -> (p: &'static str)
    ensures
        *final(index) == wrapped_index(*old(index) as int),
        p@ == gallery_paths()[*final(index) as int],
{
    if *index >= gallery_len() {
        *index = 0;
    }
    gallery_path(*index)
}

} // verus!
