use rust_fluid::grid::div_ceil;
use rust_fluid::mask::{object_mask, object_mask_bytes};
use rust_fluid::render_mode::Rendermode;

#[test]
fn div_ceil_rounds_up() {
    assert_eq!(div_ceil(960, 8), 120);
    assert_eq!(div_ceil(540, 8), 68);
    assert_eq!(div_ceil(600, 64), 10);
    assert_eq!(div_ceil(0, 8), 0);
    assert_eq!(div_ceil(1, 8), 1);
    assert_eq!(div_ceil(8, 8), 1);
    assert_eq!(div_ceil(9, 8), 2);
    assert_eq!(div_ceil(u32::MAX, 2), 2147483648);
    assert_eq!(div_ceil(u32::MAX, 1), u32::MAX);
}

#[test]
fn render_mode_labels() {
    assert_eq!(Rendermode::Density.label(), "Density");
    assert_eq!(Rendermode::Speed.label(), "Speed");
    assert_eq!(Rendermode::XVelocity.label(), "X-Velocity");
    assert_eq!(Rendermode::YVelocity.label(), "Y-Velocity");
    assert_eq!(Rendermode::Curl.label(), "Curl");
    assert_eq!(Rendermode::XVelocity.short_label(), "X-Vel");
    assert_eq!(Rendermode::YVelocity.short_label(), "Y-Vel");
    assert_eq!(Rendermode::Curl.short_label(), "Curl");
    assert!(Rendermode::Curl != Rendermode::Speed);
}

#[test]
fn mask_of_single_cell() {
    assert_eq!(object_mask(1, 1), vec![1]);
}

#[test]
fn mask_of_empty_box() {
    assert_eq!(object_mask(0, 5), Vec::<u32>::new());
    assert_eq!(object_mask(7, 0), Vec::<u32>::new());
}

#[test]
fn mask_of_three_by_three_is_a_plus() {
    assert_eq!(object_mask(3, 3), vec![0, 1, 0, 1, 1, 1, 0, 1, 0]);
}

#[test]
fn mask_of_four_by_four() {
    // centre (2, 2), radius 2
    assert_eq!(
        object_mask(4, 4),
        vec![
            0, 0, 1, 0, //
            0, 1, 1, 1, //
            1, 1, 1, 1, //
            0, 1, 1, 1,
        ]
    );
}

#[test]
fn mask_of_wide_box_uses_shorter_side() {
    // 5 by 2: centre (2, 1), radius 1
    assert_eq!(object_mask(5, 2), vec![0, 0, 1, 0, 0, 0, 1, 1, 1, 0]);
}

#[test]
fn mask_of_default_obstacle() {
    let m = object_mask(80, 80);
    assert_eq!(m.len(), 6400);
    assert_eq!(m[40 * 80 + 40], 1);
    assert_eq!(m[0], 0);
    assert_eq!(m[40], 1); // (40, 0) is at distance 40 = radius
    assert_eq!(m[41], 0);
    assert_eq!(m[40 * 80], 1); // (0, 40)
    assert_eq!(m.iter().filter(|v| **v > 1).count(), 0);
}

#[test]
fn mask_bytes_are_the_words_in_machine_order() {
    let bytes = object_mask_bytes(3, 3);
    assert_eq!(bytes.len(), 36);
    let words = object_mask(3, 3);
    let expected: Vec<u8> = words.iter().flat_map(|w| w.to_ne_bytes()).collect();
    assert_eq!(bytes, expected);
    assert_eq!(&bytes[4..8], &1u32.to_ne_bytes());
    assert_eq!(&bytes[0..4], &[0, 0, 0, 0]);
}

#[test]
fn mask_centre_is_always_solid() {
    for (w, h) in [(1u32, 1u32), (2, 7), (7, 2), (10, 10), (80, 80), (33, 64)] {
        let m = object_mask(w, h);
        assert_eq!(m[((h / 2) * w + w / 2) as usize], 1, "{w}x{h}");
    }
}
