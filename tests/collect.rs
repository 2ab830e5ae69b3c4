use raytracer::collect::RowCollector;

fn row(line: u32, width: u32) -> Vec<u32> {
    (0..width).map(|x| line * 100 + x).collect()
}

#[test]
fn rows_in_order_give_row_major_image() {
    let mut c = RowCollector::new(3, 2);
    c.place_row(0, row(0, 3));
    c.place_row(1, row(1, 3));
    assert!(c.is_complete());
    assert_eq!(c.into_image(), Some(vec![0, 1, 2, 100, 101, 102]));
}

#[test]
fn arrival_order_does_not_change_image() {
    let (width, height) = (4u32, 5u32);
    let mut serial = RowCollector::new(width as usize, height as usize);
    for line in 0..height {
        serial.place_row(line as usize, row(line, width));
    }
    let mut parallel = RowCollector::new(width as usize, height as usize);
    for line in [3u32, 0, 4, 2, 1] {
        parallel.place_row(line as usize, row(line, width));
    }
    let expected: Vec<u32> = (0..height).flat_map(|l| row(l, width)).collect();
    assert_eq!(serial.into_image(), Some(expected.clone()));
    assert_eq!(parallel.into_image(), Some(expected));
}

#[test]
fn missing_row_gives_no_image() {
    let mut c = RowCollector::new(2, 3);
    c.place_row(0, row(0, 2));
    c.place_row(2, row(2, 2));
    assert!(!c.is_complete());
    assert_eq!(c.into_image(), None);
}

#[test]
fn new_collector_reports_its_size() {
    let c: RowCollector<u8> = RowCollector::new(7, 9);
    assert_eq!(c.width(), 7);
    assert_eq!(c.height(), 9);
    assert!(!c.is_complete());
}

#[test]
fn empty_image_is_complete_at_once() {
    let c: RowCollector<u8> = RowCollector::new(5, 0);
    assert!(c.is_complete());
    assert_eq!(c.into_image(), Some(vec![]));
}

#[test]
fn row_reported_twice_keeps_the_last() {
    let mut c = RowCollector::new(1, 1);
    c.place_row(0, vec![1u8]);
    c.place_row(0, vec![2u8]);
    assert_eq!(c.into_image(), Some(vec![2u8]));
}
