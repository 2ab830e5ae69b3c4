use raytracer::encode::{channel_byte, encode_ppm, ppm_header, push_pixel, Rgb8};

fn gamma_scaled(x: f64) -> u64 {
    (x.max(0.0).sqrt() * 256.0) as u64
}

#[test]
fn channel_of_black_is_zero() {
    assert_eq!(channel_byte(gamma_scaled(0.0)), 0);
}

#[test]
fn channel_of_full_intensity_is_top() {
    assert_eq!(gamma_scaled(1.0), 256);
    assert_eq!(channel_byte(gamma_scaled(1.0)), 255);
}

#[test]
fn channel_beyond_full_intensity_clamps() {
    assert_eq!(channel_byte(gamma_scaled(4.0)), 255);
    assert_eq!(channel_byte(gamma_scaled(1.0e300)), 255);
    assert_eq!(channel_byte(u64::MAX), 255);
}

#[test]
fn channel_below_top_is_kept() {
    assert_eq!(channel_byte(255), 255);
    assert_eq!(channel_byte(128), 128);
    assert_eq!(channel_byte(gamma_scaled(0.25)), 128);
    assert_eq!(channel_byte(gamma_scaled(-3.0)), 0);
}

#[test]
fn rgb_from_scaled_clamps_each_channel() {
    let p = Rgb8::from_scaled(0, 300, 17);
    assert_eq!(p, Rgb8 { r: 0, g: 255, b: 17 });
}

#[test]
fn header_lists_dimensions() {
    assert_eq!(ppm_header(2, 1), b"P3\n2 1\n255\n".to_vec());
    assert_eq!(ppm_header(1920, 1080), b"P3\n1920 1080\n255\n".to_vec());
    assert_eq!(ppm_header(0, 10), b"P3\n0 10\n255\n".to_vec());
}

#[test]
fn pixel_line_has_three_channels() {
    let mut out = b"x".to_vec();
    push_pixel(&mut out, Rgb8 { r: 255, g: 0, b: 100 });
    assert_eq!(out, b"x255 0 100\n".to_vec());
}

#[test]
fn whole_image_is_row_major() {
    let pixels = vec![
        Rgb8 { r: 1, g: 2, b: 3 },
        Rgb8 { r: 10, g: 20, b: 30 },
        Rgb8 { r: 9, g: 99, b: 199 },
        Rgb8 { r: 0, g: 0, b: 0 },
    ];
    let text = encode_ppm(2, 2, &pixels);
    assert_eq!(
        String::from_utf8(text).unwrap(),
        "P3\n2 2\n255\n1 2 3\n10 20 30\n9 99 199\n0 0 0\n"
    );
}

#[test]
fn empty_image_is_header_only() {
    assert_eq!(encode_ppm(0, 3, &Vec::new()), b"P3\n0 3\n255\n".to_vec());
}
