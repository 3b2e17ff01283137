use raytracer::frame::{generate, Rgb};

fn rgb(r: u8, g: u8, b: u8) -> Rgb {
    Rgb { r, g, b }
}

#[test]
fn length_is_width_times_height() {
    for (w, h) in [(1usize, 1usize), (3, 2), (2, 3), (17, 5), (100, 100)] {
        assert_eq!(generate(w, h).len(), w * h);
    }
}

#[test]
fn zero_dimension_gives_empty_buffer() {
    assert!(generate(0, 0).is_empty());
    assert!(generate(0, 7).is_empty());
    assert!(generate(7, 0).is_empty());
    assert!(generate(usize::MAX, 0).is_empty());
    assert!(generate(0, usize::MAX).is_empty());
}

#[test]
fn generation_is_deterministic() {
    assert_eq!(generate(31, 17), generate(31, 17));
    assert_eq!(generate(100, 100), generate(100, 100));
}

#[test]
fn corners_of_hundred_by_hundred() {
    let v = generate(100, 100);
    assert_eq!(v[0], rgb(0, 0, 0));
    assert_eq!(v[99 * 100 + 99], rgb(252, 252, 0));
}

#[test]
fn every_sample_of_hundred_by_hundred() {
    let v = generate(100, 100);
    for y in 0..100usize {
        for x in 0..100usize {
            let expected = rgb((x * 255 / 100) as u8, (y * 255 / 100) as u8, 0);
            assert_eq!(v[y * 100 + x], expected);
        }
    }
}

#[test]
fn row_major_layout_on_small_frame() {
    // 3 wide, 2 high: red steps 0, 85, 170 along a row; green 0 then 127.
    let v = generate(3, 2);
    assert_eq!(
        v,
        vec![
            rgb(0, 0, 0),
            rgb(85, 0, 0),
            rgb(170, 0, 0),
            rgb(0, 127, 0),
            rgb(85, 127, 0),
            rgb(170, 127, 0),
        ]
    );
}

#[test]
fn single_pixel_is_black() {
    assert_eq!(generate(1, 1), vec![rgb(0, 0, 0)]);
}

#[test]
fn wide_single_row() {
    let v = generate(256, 1);
    assert_eq!(v.len(), 256);
    assert_eq!(v[255], rgb(254, 0, 0));
    assert_eq!(v[128], rgb(127, 0, 0));
    assert!(v.iter().all(|p| p.g == 0 && p.b == 0));
}
