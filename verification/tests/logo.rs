use about_system::logo::{declared_dimensions, get_logo, DecodeError, LogoImage, Pixel};

/// A 2 x 2 picture with 8-bit RGBA pixels.
fn rgba_png() -> Vec<u8> {
    vec![
        137, 80, 78, 71, 13, 10, 26, 10, 0, 0, 0, 13, 73, 72, 68, 82,
        0, 0, 0, 2, 0, 0, 0, 2, 8, 6, 0, 0, 0, 114, 182, 13,
        36, 0, 0, 0, 22, 73, 68, 65, 84, 120, 218, 99, 248, 207, 192, 240,
        31, 8, 27, 24, 64, 52, 151, 136, 156, 6, 0, 54, 169, 4, 225, 100,
        219, 77, 126, 0, 0, 0, 0, 73, 69, 78, 68, 174, 66, 96, 130,
    ]
}

/// A 3 x 1 picture with 8-bit RGB pixels and no alpha channel.
fn rgb_png() -> Vec<u8> {
    vec![
        137, 80, 78, 71, 13, 10, 26, 10, 0, 0, 0, 13, 73, 72, 68, 82,
        0, 0, 0, 3, 0, 0, 0, 1, 8, 2, 0, 0, 0, 148, 130, 131,
        227, 0, 0, 0, 18, 73, 68, 65, 84, 120, 218, 99, 96, 100, 98, 102,
        97, 101, 99, 231, 224, 4, 0, 0, 175, 0, 46, 99, 141, 52, 94, 0,
        0, 0, 0, 73, 69, 78, 68, 174, 66, 96, 130,
    ]
}

fn px(r: u8, g: u8, b: u8, a: u8) -> Pixel {
    Pixel { r, g, b, a }
}

fn expect_logo(r: Result<LogoImage, DecodeError>) -> LogoImage {
    match r {
        Ok(logo) => logo,
        Err(e) => panic!("no logo: {:?}", e),
    }
}

fn expect_error(r: Result<LogoImage, DecodeError>) -> DecodeError {
    match r {
        Ok(_) => panic!("a logo where none was expected"),
        Err(e) => e,
    }
}

#[test]
fn get_logo_premultiplies_rgba_pixels() {
    // The stream holds (255, 0, 0, 255), (0, 255, 0, 128), (0, 0, 255, 0) and
    // (10, 20, 30, 40) in straight alpha.
    let logo = expect_logo(get_logo(&rgba_png()));
    assert_eq!(logo.width(), 2);
    assert_eq!(logo.height(), 2);
    assert_eq!(
        logo.pixels(),
        &vec![px(255, 0, 0, 255), px(0, 128, 0, 128), px(0, 0, 0, 0), px(2, 3, 5, 40)]
    );
}

#[test]
fn get_logo_leaves_no_colour_above_alpha() {
    let logo = expect_logo(get_logo(&rgba_png()));
    for p in logo.pixels() {
        assert!(p.r <= p.a && p.g <= p.a && p.b <= p.a);
    }
}

#[test]
fn from_straight_scales_colours_by_alpha() {
    assert_eq!(Pixel::from_straight(10, 20, 30, 40), px(2, 3, 5, 40));
    assert_eq!(Pixel::from_straight(200, 100, 50, 128), px(100, 50, 25, 128));
    assert_eq!(Pixel::from_straight(255, 255, 255, 77), px(77, 77, 77, 77));
}

#[test]
fn from_straight_rounds_to_the_nearest() {
    // 1 * 128 / 255 is just above one half, 1 * 127 / 255 just below.
    assert_eq!(Pixel::from_straight(1, 1, 1, 128), px(1, 1, 1, 128));
    assert_eq!(Pixel::from_straight(1, 1, 1, 127), px(0, 0, 0, 127));
    assert_eq!(Pixel::from_straight(3, 2, 1, 200), px(2, 2, 1, 200));
}

#[test]
fn from_straight_keeps_opaque_pixels() {
    assert_eq!(Pixel::from_straight(10, 20, 30, 255), px(10, 20, 30, 255));
    assert_eq!(Pixel::from_straight(0, 255, 1, 255), px(0, 255, 1, 255));
}

#[test]
fn from_straight_clears_pixels_without_alpha() {
    assert_eq!(Pixel::from_straight(255, 0, 0, 0), px(0, 0, 0, 0));
    assert_eq!(Pixel::from_straight(255, 255, 255, 0), px(0, 0, 0, 0));
}

#[test]
fn from_straight_is_the_rounded_product_for_every_channel_and_alpha() {
    for c in 0..=255u32 {
        for a in 0..=255u32 {
            let p = Pixel::from_straight(c as u8, 0, 255, a as u8);
            assert_eq!(p.r as u32, (c * a + 127) / 255);
            assert_eq!(p.g, 0);
            assert_eq!(p.b as u32, a);
            assert_eq!(p.a as u32, a);
            assert!(p.r as u32 <= a && p.r as u32 <= c);
        }
    }
}

#[test]
fn get_logo_gives_rgb_pixels_full_alpha() {
    let logo = expect_logo(get_logo(&rgb_png()));
    assert_eq!(logo.width(), 3);
    assert_eq!(logo.height(), 1);
    assert_eq!(logo.pixels(), &vec![px(1, 2, 3, 255), px(4, 5, 6, 255), px(7, 8, 9, 255)]);
}

#[test]
fn get_logo_twice_gives_identical_pixels() {
    let bytes = rgba_png();
    let first = expect_logo(get_logo(&bytes));
    let second = expect_logo(get_logo(&bytes));
    assert_eq!(first.width(), second.width());
    assert_eq!(first.height(), second.height());
    assert_eq!(first.pixels(), second.pixels());
}

#[test]
fn get_logo_has_the_declared_dimensions() {
    let bytes = rgb_png();
    let logo = expect_logo(get_logo(&bytes));
    assert_eq!(declared_dimensions(&bytes), Some((logo.width(), logo.height())));
    assert_eq!(logo.pixels().len(), 3);
}

#[test]
fn get_logo_refuses_bytes_that_are_no_png() {
    assert_eq!(expect_error(get_logo(b"this is not a picture")), DecodeError::Malformed);
    assert_eq!(expect_error(get_logo(&[])), DecodeError::Malformed);
}

#[test]
fn get_logo_refuses_a_truncated_png() {
    let mut bytes = rgba_png();
    bytes.truncate(40);
    assert_eq!(expect_error(get_logo(&bytes)), DecodeError::Malformed);
}

#[test]
fn get_logo_refuses_a_corrupted_png() {
    let mut bytes = rgba_png();
    bytes[0] = 0;
    assert_eq!(expect_error(get_logo(&bytes)), DecodeError::Malformed);
    let mut bytes = rgba_png();
    bytes[50] ^= 0xff;
    assert_eq!(expect_error(get_logo(&bytes)), DecodeError::Malformed);
}

#[test]
fn declared_dimensions_reads_the_header() {
    assert_eq!(declared_dimensions(&rgba_png()), Some((2, 2)));
    assert_eq!(declared_dimensions(&rgb_png()), Some((3, 1)));
}

#[test]
fn declared_dimensions_reads_big_endian_numbers() {
    let mut bytes = rgba_png();
    bytes[16..24].copy_from_slice(&[1, 2, 3, 4, 0xff, 0xff, 0xff, 0xff]);
    assert_eq!(declared_dimensions(&bytes), Some((0x0102_0304, 0xffff_ffff)));
}

#[test]
fn declared_dimensions_needs_the_whole_header() {
    let bytes = rgba_png();
    assert_eq!(declared_dimensions(&bytes[..23]), None);
    assert_eq!(declared_dimensions(&bytes[..24]), Some((2, 2)));
    assert_eq!(declared_dimensions(&[]), None);
}

#[test]
fn declared_dimensions_needs_signature_and_header_tag() {
    for at in 0..8 {
        let mut bytes = rgba_png();
        bytes[at] ^= 1;
        assert_eq!(declared_dimensions(&bytes), None);
    }
    for at in 12..16 {
        let mut bytes = rgba_png();
        bytes[at] ^= 1;
        assert_eq!(declared_dimensions(&bytes), None);
    }
    let mut bytes = rgba_png();
    bytes[8] = 9;
    assert_eq!(declared_dimensions(&bytes), Some((2, 2)));
}

/// Six opaque pixels: pixel `i` has the colours `10 * i + 1`, `10 * i + 2`
/// and `10 * i + 3`.
fn six_opaque_pixels() -> Vec<u8> {
    let mut data = Vec::new();
    for i in 0..6u8 {
        data.extend_from_slice(&[10 * i + 1, 10 * i + 2, 10 * i + 3, 255]);
    }
    data
}

#[test]
fn from_raw_reads_rows_top_first() {
    let data = six_opaque_pixels();
    let logo = expect_logo(LogoImage::from_raw(3, 2, &data));
    assert_eq!(logo.width(), 3);
    assert_eq!(logo.height(), 2);
    assert_eq!(logo.pixels().len(), 6);
    assert_eq!(logo.pixel(0, 0), Some(px(1, 2, 3, 255)));
    assert_eq!(logo.pixel(2, 0), Some(px(21, 22, 23, 255)));
    assert_eq!(logo.pixel(0, 1), Some(px(31, 32, 33, 255)));
    assert_eq!(logo.pixel(2, 1), Some(px(51, 52, 53, 255)));
}

#[test]
fn from_raw_premultiplies_each_pixel() {
    let data = [255, 0, 0, 0, 10, 20, 30, 40, 9, 8, 7, 255, 255, 255, 255, 1];
    let logo = expect_logo(LogoImage::from_raw(2, 2, &data));
    assert_eq!(
        logo.pixels(),
        &vec![px(0, 0, 0, 0), px(2, 3, 5, 40), px(9, 8, 7, 255), px(1, 1, 1, 1)]
    );
}

#[test]
fn pixel_outside_the_grid_is_none() {
    let data = six_opaque_pixels();
    let logo = expect_logo(LogoImage::from_raw(3, 2, &data));
    assert_eq!(logo.pixel(3, 0), None);
    assert_eq!(logo.pixel(0, 2), None);
    assert_eq!(logo.pixel(u32::MAX, u32::MAX), None);
}

#[test]
fn from_raw_refuses_a_short_buffer() {
    let data = vec![0u8; 23];
    assert_eq!(expect_error(LogoImage::from_raw(3, 2, &data)), DecodeError::DimensionMismatch);
    assert_eq!(expect_error(LogoImage::from_raw(1, 1, &[])), DecodeError::DimensionMismatch);
    assert_eq!(
        expect_error(LogoImage::from_raw(u32::MAX, u32::MAX, &data)),
        DecodeError::DimensionMismatch
    );
}

#[test]
fn from_raw_ignores_what_lies_beyond_the_grid() {
    let data = [10, 20, 30, 255, 40, 50, 60, 255, 9, 9, 9];
    let logo = expect_logo(LogoImage::from_raw(2, 1, &data));
    assert_eq!(logo.pixels(), &vec![px(10, 20, 30, 255), px(40, 50, 60, 255)]);
}

#[test]
fn from_raw_of_an_empty_grid_has_no_pixels() {
    let logo = expect_logo(LogoImage::from_raw(0, 5, &[]));
    assert_eq!(logo.width(), 0);
    assert_eq!(logo.height(), 5);
    assert!(logo.pixels().is_empty());
    let logo = expect_logo(LogoImage::from_raw(7, 0, &[1, 2, 3]));
    assert!(logo.pixels().is_empty());
}

#[test]
fn from_decoded_takes_the_declared_size_only() {
    let data = [1, 2, 3, 255, 4, 5, 6, 255, 7, 8, 9, 255, 200, 100, 50, 128];
    let logo = expect_logo(LogoImage::from_decoded(Some((2, 2)), 2, 2, &data));
    assert_eq!(logo.pixel(1, 0), Some(px(4, 5, 6, 255)));
    assert_eq!(logo.pixel(1, 1), Some(px(100, 50, 25, 128)));
    assert_eq!(
        expect_error(LogoImage::from_decoded(Some((4, 1)), 2, 2, &data)),
        DecodeError::DimensionMismatch
    );
    assert_eq!(
        expect_error(LogoImage::from_decoded(Some((2, 3)), 2, 2, &data)),
        DecodeError::DimensionMismatch
    );
    assert_eq!(
        expect_error(LogoImage::from_decoded(None, 2, 2, &data)),
        DecodeError::DimensionMismatch
    );
}

#[test]
fn from_decoded_refuses_a_short_buffer() {
    let data = vec![0u8; 15];
    assert_eq!(
        expect_error(LogoImage::from_decoded(Some((2, 2)), 2, 2, &data)),
        DecodeError::DimensionMismatch
    );
}

/// A 480 x 96 picture: an opaque panel of one colour, 24 pixels inside a
/// border without alpha.
fn panel_png() -> Vec<u8> {
    vec![
        137, 80, 78, 71, 13, 10, 26, 10, 0, 0, 0, 13, 73, 72, 68, 82,
        0, 0, 1, 224, 0, 0, 0, 96, 8, 6, 0, 0, 0, 197, 19, 161,
        249, 0, 0, 1, 108, 73, 68, 65, 84, 120, 218, 237, 213, 81, 9, 0,
        64, 8, 68, 65, 227, 152, 201, 116, 215, 244, 4, 127, 77, 32, 204, 192,
        75, 176, 31, 27, 1, 0, 0, 0, 0, 0, 0, 0, 0, 0, 0, 0,
        0, 0, 0, 0, 0, 0, 0, 0, 0, 0, 0, 0, 0, 0, 0, 0,
        0, 0, 0, 0, 0, 0, 0, 0, 0, 0, 0, 0, 0, 0, 0, 0,
        0, 44, 89, 239, 75, 146, 116, 45, 7, 44, 73, 146, 3, 118, 192, 146,
        36, 7, 236, 128, 37, 73, 114, 192, 14, 88, 146, 228, 128, 29, 176, 36,
        73, 14, 88, 146, 36, 7, 236, 128, 37, 73, 114, 192, 146, 36, 57, 96,
        7, 44, 73, 146, 3, 150, 36, 201, 1, 59, 96, 73, 146, 3, 118, 192,
        146, 36, 57, 96, 7, 44, 73, 114, 192, 14, 88, 146, 36, 7, 108, 72,
        73, 146, 3, 118, 192, 146, 36, 57, 96, 73, 146, 28, 176, 3, 150, 36,
        201, 1, 75, 146, 228, 128, 29, 176, 36, 201, 1, 59, 96, 73, 146, 28,
        176, 3, 150, 36, 57, 96, 7, 44, 73, 146, 3, 54, 162, 36, 201, 1,
        59, 96, 73, 146, 28, 176, 36, 73, 14, 216, 1, 75, 146, 228, 128, 37,
        73, 114, 192, 14, 88, 146, 228, 128, 29, 176, 36, 73, 14, 216, 1, 75,
        146, 28, 176, 3, 150, 36, 201, 1, 59, 96, 73, 146, 3, 118, 192, 146,
        36, 57, 96, 73, 146, 28, 176, 3, 150, 36, 201, 1, 75, 146, 228, 128,
        29, 176, 36, 201, 1, 59, 96, 73, 146, 28, 176, 3, 150, 36, 57, 96,
        7, 44, 73, 146, 3, 118, 192, 146, 36, 7, 236, 128, 37, 73, 114, 192,
        146, 36, 57, 96, 7, 44, 73, 146, 3, 150, 36, 201, 1, 59, 96, 73,
        146, 3, 6, 0, 0, 0, 0, 0, 0, 0, 0, 0, 0, 0, 0, 0,
        0, 0, 0, 0, 0, 0, 0, 0, 0, 0, 0, 0, 0, 0, 0, 0,
        0, 0, 0, 0, 0, 0, 0, 0, 0, 0, 0, 0, 0, 0, 0, 70,
        3, 6, 73, 123, 21, 170, 126, 6, 207, 0, 0, 0, 0, 73, 69, 78,
        68, 174, 66, 96, 130,
    ]
}

#[test]
fn get_logo_decodes_a_panel_inside_a_clear_border() {
    let bytes = panel_png();
    let logo = expect_logo(get_logo(&bytes));
    assert_eq!(declared_dimensions(&bytes), Some((480, 96)));
    assert_eq!(logo.width(), 480);
    assert_eq!(logo.height(), 96);
    assert_eq!(logo.pixels().len(), 480 * 96);
    assert_eq!(logo.pixel(0, 0), Some(px(0, 0, 0, 0)));
    assert_eq!(logo.pixel(23, 24), Some(px(0, 0, 0, 0)));
    assert_eq!(logo.pixel(24, 23), Some(px(0, 0, 0, 0)));
    assert_eq!(logo.pixel(24, 24), Some(px(40, 90, 160, 255)));
    assert_eq!(logo.pixel(455, 71), Some(px(40, 90, 160, 255)));
    assert_eq!(logo.pixel(456, 71), Some(px(0, 0, 0, 0)));
    assert_eq!(logo.pixel(455, 72), Some(px(0, 0, 0, 0)));
    let opaque = logo.pixels().iter().filter(|p| p.a == 255).count();
    assert_eq!(opaque, 432 * 48);
}
