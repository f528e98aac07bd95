use qoi_decoder::color::color::RGBA;
use qoi_decoder::encoding::common::{hash, hash_rgba};

#[test]
fn new_pixel_is_opaque_black() {
    assert_eq!(RGBA::new(), RGBA { r: 0, g: 0, b: 0, a: 255 });
}

#[test]
fn default_pixel_is_opaque_black() {
    assert_eq!(RGBA::default(), RGBA::new());
}

#[test]
fn rgb_import_sets_alpha_to_opaque() {
    assert_eq!(RGBA::from_rgb_bytes(&[1, 2, 3]), RGBA { r: 1, g: 2, b: 3, a: 255 });
}

#[test]
fn rgb_export_drops_alpha() {
    let pixel = RGBA { r: 9, g: 8, b: 7, a: 6 };
    assert_eq!(pixel.to_rgb_bytes(), [9, 8, 7]);
}

#[test]
fn rgba_import_reads_all_four_channels() {
    assert_eq!(RGBA::from_rgba_bytes(&[10, 20, 30, 40]), RGBA { r: 10, g: 20, b: 30, a: 40 });
}

#[test]
fn rgba_export_writes_all_four_channels() {
    let pixel = RGBA { r: 10, g: 20, b: 30, a: 40 };
    assert_eq!(pixel.to_rgba_bytes(), [10, 20, 30, 40]);
}

#[test]
fn rgba_round_trip_is_exact() {
    let bytes = [0u8, 255, 128, 1];
    assert_eq!(RGBA::from_rgba_bytes(&bytes).to_rgba_bytes(), bytes);
    let pixel = RGBA { r: 200, g: 100, b: 50, a: 25 };
    assert_eq!(RGBA::from_rgba_bytes(&pixel.to_rgba_bytes()), pixel);
}

#[test]
fn rgb_round_trip_keeps_colour_and_makes_opaque() {
    let pixel = RGBA { r: 200, g: 100, b: 50, a: 25 };
    assert_eq!(
        RGBA::from_rgb_bytes(&pixel.to_rgb_bytes()),
        RGBA { r: 200, g: 100, b: 50, a: 255 }
    );
}

#[test]
fn hash_of_opaque_black() {
    assert_eq!(hash(0, 0, 0, 255), 53);
}

#[test]
fn hash_exact_values() {
    assert_eq!(hash(0, 0, 0, 0), 0);
    assert_eq!(hash(1, 0, 0, 0), 3);
    assert_eq!(hash(0, 1, 0, 0), 5);
    assert_eq!(hash(0, 0, 1, 0), 7);
    assert_eq!(hash(0, 0, 0, 1), 11);
    assert_eq!(hash(10, 20, 30, 40), 12);
}

#[test]
fn hash_does_not_overflow_on_large_channels() {
    assert_eq!(hash(255, 255, 255, 255), 38);
    assert_eq!(hash(255, 0, 0, 0), 61);
}

#[test]
fn hash_is_always_a_slot_index() {
    for r in [0u8, 1, 63, 64, 127, 128, 254, 255] {
        for g in [0u8, 17, 200, 255] {
            for b in [0u8, 99, 255] {
                for a in [0u8, 1, 128, 255] {
                    assert!(hash(r, g, b, a) < 64);
                }
            }
        }
    }
}

#[test]
fn hash_is_deterministic() {
    for v in 0..=255u8 {
        let w = v.wrapping_mul(7);
        assert_eq!(hash(v, w, v, w), hash(v, w, v, w));
    }
}

#[test]
fn hash_rgba_agrees_with_hash() {
    let pixel = RGBA { r: 10, g: 20, b: 30, a: 40 };
    assert_eq!(hash_rgba(pixel), hash(10, 20, 30, 40));
    assert_eq!(hash_rgba(RGBA::new()), 53);
}
