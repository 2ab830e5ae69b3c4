use raytracer::settings::RenderSettings;

#[test]
fn height_is_at_least_one() {
    let s = RenderSettings::new(100, 0, 10, 10);
    assert_eq!(s.image_height(), 1);
    let s = RenderSettings::new(1920, 1080, 1500, 200);
    assert_eq!(s.image_width(), 1920);
    assert_eq!(s.image_height(), 1080);
    assert_eq!(s.samples_per_pixel(), 1500);
    assert_eq!(s.max_bounces(), 200);
}

#[test]
fn path_budget_follows_max_bounces() {
    let s = RenderSettings::new(4, 4, 1, 50);
    assert_eq!(s.start_path().remaining(), 51);
}

#[test]
fn pixel_seed_advances_by_row_major_index() {
    let s = RenderSettings::new(10, 5, 1, 1);
    assert_eq!(s.pixel_seed(1000, 0, 0), 1000);
    assert_eq!(s.pixel_seed(1000, 3, 2), 1023);
    assert_eq!(s.pixel_seed(1000, 9, 4), 1049);
}

#[test]
fn pixel_seed_wraps() {
    let s = RenderSettings::new(10, 5, 1, 1);
    assert_eq!(s.pixel_seed(u64::MAX, 1, 0), 0);
    assert_eq!(s.pixel_seed(u64::MAX - 5, 2, 1), 6);
}
