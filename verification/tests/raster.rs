use osiris::raster::{blend, coverage_alpha, load_pixels, plot, FULL_BITS, INFINITY_BITS, THRESHOLD_BITS};
use osiris::tui::Rgba;
use tiny_skia::{Pixmap, PremultipliedColorU8};

/// What single-precision arithmetic makes of a coverage.
fn by_float(coverage: f32) -> Option<u8> {
    if coverage > 0.2 {
        Some((coverage * 255.0) as u8)
    } else {
        None
    }
}

fn pixel(pixmap: &Pixmap, x: u32, y: u32) -> (u8, u8, u8, u8) {
    let p = pixmap.pixel(x, y).unwrap();
    (p.red(), p.green(), p.blue(), p.alpha())
}

#[test]
fn the_constants_are_the_bits_of_the_numbers() {
    assert_eq!(THRESHOLD_BITS, 0.2f32.to_bits());
    assert_eq!(FULL_BITS, 1.0f32.to_bits());
    assert_eq!(INFINITY_BITS, f32::INFINITY.to_bits());
}

#[test]
fn coverage_up_to_a_fifth_is_not_drawn() {
    assert_eq!(coverage_alpha(0.0f32.to_bits()), None);
    assert_eq!(coverage_alpha(0.1f32.to_bits()), None);
    assert_eq!(coverage_alpha(0.2f32.to_bits()), None);
    assert_eq!(coverage_alpha((-0.5f32).to_bits()), None);
    assert_eq!(coverage_alpha((-0.0f32).to_bits()), None);
    assert_eq!(coverage_alpha(f32::NAN.to_bits()), None);
    assert_eq!(coverage_alpha(f32::NEG_INFINITY.to_bits()), None);
    assert_eq!(coverage_alpha(f32::MIN_POSITIVE.to_bits()), None);
}

#[test]
fn coverage_above_a_fifth_is_weighed() {
    assert_eq!(coverage_alpha(0.2f32.to_bits() + 1), Some(51));
    assert_eq!(coverage_alpha(0.25f32.to_bits()), Some(63));
    assert_eq!(coverage_alpha(0.5f32.to_bits()), Some(127));
    assert_eq!(coverage_alpha(0.75f32.to_bits()), Some(191));
    assert_eq!(coverage_alpha(1.0f32.to_bits() - 1), Some(254));
    assert_eq!(coverage_alpha(1.0f32.to_bits()), Some(255));
    assert_eq!(coverage_alpha(1.5f32.to_bits()), Some(255));
    assert_eq!(coverage_alpha(1000.0f32.to_bits()), Some(255));
    assert_eq!(coverage_alpha(f32::MAX.to_bits()), Some(255));
    assert_eq!(coverage_alpha(f32::INFINITY.to_bits()), Some(255));
}

#[test]
fn weights_agree_with_single_precision_near_every_step() {
    for step in 0..=255u32 {
        let near = (step as f32 / 255.0).to_bits();
        for bits in near.saturating_sub(64)..near + 64 {
            assert_eq!(coverage_alpha(bits), by_float(f32::from_bits(bits)), "bits {:#x}", bits);
        }
    }
}

#[test]
fn weights_agree_with_single_precision_between_a_fifth_and_a_quarter() {
    for bits in (0.2f32.to_bits() - 1000..0.25f32.to_bits() + 1000).step_by(3) {
        assert_eq!(coverage_alpha(bits), by_float(f32::from_bits(bits)), "bits {:#x}", bits);
    }
}

#[test]
fn weights_agree_with_single_precision_between_a_quarter_and_a_half() {
    for bits in (0.25f32.to_bits()..0.5f32.to_bits()).step_by(7) {
        assert_eq!(coverage_alpha(bits), by_float(f32::from_bits(bits)), "bits {:#x}", bits);
    }
}

#[test]
fn weights_agree_with_single_precision_between_a_half_and_one() {
    for bits in (0.5f32.to_bits()..1.0f32.to_bits() + 1000).step_by(7) {
        assert_eq!(coverage_alpha(bits), by_float(f32::from_bits(bits)), "bits {:#x}", bits);
    }
}

#[test]
fn weights_agree_with_single_precision_all_over() {
    // every 65521st bit pattern, numbers or not
    let mut bits: u32 = 0;
    loop {
        assert_eq!(coverage_alpha(bits), by_float(f32::from_bits(bits)), "bits {:#x}", bits);
        match bits.checked_add(65521) {
            Some(next) => bits = next,
            None => break,
        }
    }
}

#[test]
fn full_weight_takes_the_colour() {
    let white = Rgba::new(255, 255, 255, 255);
    assert_eq!(blend((1, 2, 3, 4), white, 255), (255, 255, 255, 255));
    assert_eq!(blend((0, 0, 0, 0), Rgba::new(10, 20, 30, 0), 255), (10, 20, 30, 255));
}

#[test]
fn part_weight_is_source_over_destination() {
    // (200 * 128 + 100 * 127) / 255 = 150; alpha (255 * 128 + 255 * 127) / 255 = 255
    assert_eq!(
        blend((100, 100, 100, 255), Rgba::new(200, 200, 200, 255), 128),
        (150, 150, 150, 255)
    );
    // over nothing: (255 * 51) / 255 = 51 in every channel
    assert_eq!(blend((0, 0, 0, 0), Rgba::new(255, 255, 255, 255), 51), (51, 51, 51, 51));
    // (0 * 64 + 5 * 191) / 255 = 3; (255 * 64 + 10 * 191) / 255 = 71; (0 + 0) = 0
    assert_eq!(blend((5, 10, 0, 255), Rgba::new(0, 255, 0, 255), 64), (3, 71, 0, 255));
    // weight zero leaves the destination
    assert_eq!(blend((9, 8, 7, 200), Rgba::new(255, 0, 0, 255), 0), (9, 8, 7, 200));
}

#[test]
fn a_sample_inside_the_pixmap_changes_one_pixel() {
    let mut pixmap = Pixmap::new(4, 3).unwrap();
    plot(&mut pixmap, 2, 1, 1.0f32.to_bits(), Rgba::new(10, 20, 30, 255));
    for y in 0..3 {
        for x in 0..4 {
            let expected = if (x, y) == (2, 1) { (10, 20, 30, 255) } else { (0, 0, 0, 0) };
            assert_eq!(pixel(&pixmap, x, y), expected);
        }
    }
}

#[test]
fn a_sample_blends_with_what_is_there() {
    let mut pixmap = Pixmap::new(2, 2).unwrap();
    pixmap.pixels_mut()[3] = PremultipliedColorU8::from_rgba(100, 100, 100, 255).unwrap();
    plot(&mut pixmap, 1, 1, 0.5f32.to_bits(), Rgba::new(200, 0, 255, 255));
    // weight 127: (200 * 127 + 100 * 128) / 255 = 149, (0 + 12800) / 255 = 50, (255 * 127 + 12800) / 255 = 177
    assert_eq!(pixel(&pixmap, 1, 1), (149, 50, 177, 255));
}

#[test]
fn a_faint_sample_changes_nothing() {
    let mut pixmap = Pixmap::new(2, 2).unwrap();
    plot(&mut pixmap, 0, 0, 0.2f32.to_bits(), Rgba::new(255, 255, 255, 255));
    plot(&mut pixmap, 1, 0, 0.0f32.to_bits(), Rgba::new(255, 255, 255, 255));
    assert!(pixmap.pixels().iter().all(|p| p.alpha() == 0));
}

#[test]
fn a_sample_outside_the_pixmap_changes_nothing() {
    let mut pixmap = Pixmap::new(3, 2).unwrap();
    let full = 1.0f32.to_bits();
    let white = Rgba::new(255, 255, 255, 255);
    for (x, y) in [(-1, 0), (0, -1), (3, 0), (0, 2), (3, 2), (i32::MAX, 0), (i32::MIN, i32::MIN)] {
        plot(&mut pixmap, x, y, full, white);
    }
    assert!(pixmap.pixels().iter().all(|p| p.alpha() == 0));
    // the corners are inside
    plot(&mut pixmap, 0, 0, full, white);
    plot(&mut pixmap, 2, 1, full, white);
    assert_eq!(pixel(&pixmap, 0, 0), (255, 255, 255, 255));
    assert_eq!(pixel(&pixmap, 2, 1), (255, 255, 255, 255));
}

#[test]
fn a_blend_that_is_not_premultiplied_is_not_written() {
    let mut pixmap = Pixmap::new(1, 1).unwrap();
    // a pixel whose red is above its alpha cannot be made through the checked maker
    pixmap.data_mut().copy_from_slice(&[200, 0, 0, 0]);
    plot(&mut pixmap, 0, 0, 0.25f32.to_bits(), Rgba::new(255, 0, 0, 255));
    // weight 63: red (255 * 63 + 200 * 192) / 255 = 213, alpha (255 * 63) / 255 = 63
    assert_eq!(pixmap.data(), &[200, 0, 0, 0]);
}

#[test]
fn a_picture_is_copied_pixel_by_pixel() {
    let mut pixmap = Pixmap::new(2, 2).unwrap();
    let rgba = vec![
        10, 20, 30, 255, // opaque
        0, 0, 0, 0, // clear
        200, 10, 10, 100, // red above alpha: not premultiplied
        50, 60, 70, 70, // premultiplied
    ];
    load_pixels(&mut pixmap, &rgba);
    assert_eq!(pixel(&pixmap, 0, 0), (10, 20, 30, 255));
    assert_eq!(pixel(&pixmap, 1, 0), (0, 0, 0, 0));
    assert_eq!(pixel(&pixmap, 0, 1), (0, 0, 0, 0));
    assert_eq!(pixel(&pixmap, 1, 1), (50, 60, 70, 70));
}

#[test]
fn a_short_or_long_picture_is_copied_as_far_as_it_goes() {
    let mut pixmap = Pixmap::new(2, 1).unwrap();
    load_pixels(&mut pixmap, &vec![1, 2, 3, 255, 9, 9]);
    assert_eq!(pixel(&pixmap, 0, 0), (1, 2, 3, 255));
    assert_eq!(pixel(&pixmap, 1, 0), (0, 0, 0, 0));
    load_pixels(&mut pixmap, &vec![4, 4, 4, 4, 5, 5, 5, 5, 6, 6, 6, 6]);
    assert_eq!(pixel(&pixmap, 0, 0), (4, 4, 4, 4));
    assert_eq!(pixel(&pixmap, 1, 0), (5, 5, 5, 5));
    assert_eq!((pixmap.width(), pixmap.height()), (2, 1));
}
