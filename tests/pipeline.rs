use raytracer::collect::RowCollector;
use raytracer::encode::{encode_ppm, Rgb8};
use raytracer::schedule::assign_rows;
use raytracer::settings::RenderSettings;

fn shade(settings: &RenderSettings, seed: u64, x: u64, y: u64) -> Rgb8 {
    let mut rng = fastrand::Rng::with_seed(settings.pixel_seed(seed, x, y));
    Rgb8::from_scaled(rng.u64(0..300), rng.u64(0..300), rng.u64(0..300))
}

fn render_row(settings: &RenderSettings, seed: u64, y: u64) -> Vec<Rgb8> {
    (0..settings.image_width()).map(|x| shade(settings, seed, x, y)).collect()
}

fn render_serial(settings: &RenderSettings, seed: u64) -> Vec<u8> {
    let mut pixels = Vec::new();
    for y in 0..settings.image_height() {
        pixels.extend(render_row(settings, seed, y));
    }
    encode_ppm(settings.image_width(), settings.image_height(), &pixels)
}

fn render_distributed(settings: &RenderSettings, seed: u64, workers: usize) -> Vec<u8> {
    let queues = assign_rows(settings.image_height(), workers);
    let mut collector =
        RowCollector::new(settings.image_width() as usize, settings.image_height() as usize);
    for queue in queues.iter().rev() {
        for &y in queue.iter().rev() {
            collector.place_row(y as usize, render_row(settings, seed, y));
        }
    }
    let pixels = collector.into_image().unwrap();
    encode_ppm(settings.image_width(), settings.image_height(), &pixels)
}

#[test]
fn seeded_render_is_reproducible() {
    let settings = RenderSettings::new(6, 4, 1, 10);
    assert_eq!(render_serial(&settings, 42), render_serial(&settings, 42));
    assert_eq!(render_distributed(&settings, 42, 3), render_distributed(&settings, 42, 3));
}

#[test]
fn distributed_render_matches_serial() {
    let settings = RenderSettings::new(5, 7, 1, 10);
    let serial = render_serial(&settings, 7);
    for workers in 1..9 {
        assert_eq!(render_distributed(&settings, 7, workers), serial);
    }
}
