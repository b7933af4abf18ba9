use zenshot::burn::{burn_shape, shape_fits, Point, Segment, Shape};
use zenshot::mask::mask_line;
use zenshot::raster::{Color, Raster};

fn solid(width: u32, height: u32, c: [u8; 4]) -> Raster {
    let mut pixels = Vec::new();
    for _ in 0..(width * height) {
        pixels.extend_from_slice(&c);
    }
    Raster::from_raw(width, height, pixels).unwrap()
}

fn rgba(c: Color) -> [u8; 4] {
    [c.r, c.g, c.b, c.a]
}

const RED: Color = Color { r: 255, g: 0, b: 0, a: 255 };
const GREEN: Color = Color { r: 0, g: 255, b: 0, a: 255 };

#[test]
fn from_raw_needs_four_bytes_per_pixel() {
    assert!(Raster::from_raw(2, 2, vec![0; 16]).is_some());
    assert!(Raster::from_raw(2, 2, vec![0; 15]).is_none());
    assert!(Raster::from_raw(2, 2, vec![0; 17]).is_none());
}

#[test]
fn crop_copies_the_selected_rectangle() {
    let mut img = Raster::new(4, 3);
    for y in 0..3 {
        for x in 0..4 {
            img.put_pixel(x, y, Color { r: x as u8, g: y as u8, b: 7, a: 255 });
        }
    }
    let c = img.crop(1, 1, 2, 2);
    assert_eq!((c.width, c.height), (2, 2));
    assert_eq!(rgba(c.get_pixel(0, 0)), [1, 1, 7, 255]);
    assert_eq!(rgba(c.get_pixel(1, 1)), [2, 2, 7, 255]);
}

#[test]
fn crop_is_clamped_to_the_image() {
    let img = solid(4, 3, [1, 2, 3, 255]);
    let c = img.crop(3, 1, 10, 10);
    assert_eq!((c.width, c.height), (1, 2));
    let outside = img.crop(9, 9, 5, 5);
    assert_eq!((outside.width, outside.height), (0, 0));
    assert!(outside.pixels.is_empty());
}

#[test]
fn opaque_blend_replaces_and_transparent_blend_keeps() {
    let mut img = solid(1, 1, [10, 20, 30, 255]);
    img.blend_pixel(0, 0, Color { r: 1, g: 2, b: 3, a: 0 });
    assert_eq!(rgba(img.get_pixel(0, 0)), [10, 20, 30, 255]);
    img.blend_pixel(0, 0, RED);
    assert_eq!(rgba(img.get_pixel(0, 0)), [255, 0, 0, 255]);
}

#[test]
fn translucent_blend_rounds_to_nearest() {
    let mut img = solid(1, 1, [0, 0, 0, 255]);
    // 90/255 of 255 over black.
    img.blend_pixel(0, 0, Color { r: 255, g: 100, b: 0, a: 90 });
    // 255*90/255 = 90; 100*90/255 = 35.29 -> 35.
    assert_eq!(rgba(img.get_pixel(0, 0)), [90, 35, 0, 255]);
}

#[test]
fn mask_line_marks_both_endpoints() {
    let mut mask = vec![false; 10 * 10];
    mask_line(&mut mask, (10, 10), (1, 2), (8, 5), 1);
    assert!(mask[2 * 10 + 1]);
    assert!(mask[5 * 10 + 8]);
    assert!(!mask[9 * 10 + 9]);
}

#[test]
fn thick_line_covers_neighbours_and_clips_at_edges() {
    let mut mask = vec![false; 5 * 5];
    mask_line(&mut mask, (5, 5), (0, 0), (0, 0), 2);
    assert!(mask[0] && mask[1] && mask[5] && mask[6]);
    assert_eq!(mask.iter().filter(|c| **c).count(), 4);
}

#[test]
fn test_burn_and_crop_draws_box_onto_pixels() {
    // 200x200 black screen, selection (10,10)-(110,110), red 2px box at (20,20)-(60,60).
    let screen = solid(200, 200, [0, 0, 0, 255]);
    let mut cropped = screen.crop(10, 10, 100, 100);
    assert_eq!((cropped.width, cropped.height), (100, 100));
    let outline = Shape::Outline { min: Point { x: 10, y: 10 }, max: Point { x: 50, y: 50 } };
    burn_shape(&mut cropped, &outline, RED, 2);
    assert_eq!(rgba(cropped.get_pixel(10, 10)), [255, 0, 0, 255]);
    assert_eq!(rgba(cropped.get_pixel(0, 0)), [0, 0, 0, 255]);
    assert_eq!(rgba(cropped.get_pixel(30, 30)), [0, 0, 0, 255]);
}

#[test]
fn empty_outline_burns_nothing() {
    let mut img = solid(20, 20, [0, 0, 0, 255]);
    let flat = Shape::Outline { min: Point { x: 5, y: 5 }, max: Point { x: 15, y: 5 } };
    burn_shape(&mut img, &flat, RED, 2);
    assert!(img.pixels.chunks(4).all(|p| p == [0, 0, 0, 255]));
}

#[test]
fn test_burn_and_crop_draws_arrow_onto_pixels() {
    let mut img = solid(100, 100, [0, 0, 0, 255]);
    let shaft = Segment { from: Point { x: 10, y: 10 }, to: Point { x: 50, y: 10 } };
    burn_shape(&mut img, &Shape::Segments { segments: vec![shaft] }, GREEN, 2);
    assert_eq!(rgba(img.get_pixel(30, 10)), [0, 255, 0, 255]);
}

#[test]
fn overlapping_marker_segments_blend_once() {
    let mut img = solid(10, 10, [0, 0, 0, 255]);
    let marker = Color { r: 200, g: 0, b: 0, a: 100 };
    let a = Segment { from: Point { x: 0, y: 5 }, to: Point { x: 9, y: 5 } };
    let b = Segment { from: Point { x: 5, y: 0 }, to: Point { x: 5, y: 9 } };
    burn_shape(&mut img, &Shape::Segments { segments: vec![a, b] }, marker, 1);
    // The crossing is blended exactly like any other covered pixel.
    assert_eq!(rgba(img.get_pixel(5, 5)), rgba(img.get_pixel(2, 5)));
    assert_eq!(rgba(img.get_pixel(5, 5)), [78, 0, 0, 255]);
}

#[test]
fn far_away_short_lines_are_drawn_and_long_spans_are_refused() {
    let far = 1 << 30;
    let mut mask = vec![false; 4 * 4];
    mask_line(&mut mask, (4, 4), (far, 0), (far + 5, 0), 2);
    assert!(mask.iter().all(|c| !*c));
    let short = Shape::Segments { segments: vec![Segment { from: Point { x: far, y: 0 }, to: Point { x: far + 5, y: 0 } }] };
    assert!(shape_fits(&short, 2));
    let long = Shape::Segments { segments: vec![Segment { from: Point { x: 0, y: 0 }, to: Point { x: 1 << 29, y: 0 } }] };
    assert!(!shape_fits(&long, 2));
    let edge = Shape::Segments { segments: vec![Segment { from: Point { x: i32::MAX, y: 0 }, to: Point { x: i32::MAX, y: 1 } }] };
    assert!(shape_fits(&edge, 1));
    assert!(!shape_fits(&edge, 2));
}

#[test]
fn a_thin_line_has_one_pixel_per_step_of_its_longer_axis() {
    for (end, len) in [((4, 2), 5), ((1, 5), 6), ((3, 3), 4), ((0, 0), 1)] {
        let mut mask = vec![false; 8 * 8];
        mask_line(&mut mask, (8, 8), (0, 0), end, 1);
        assert_eq!(mask.iter().filter(|c| **c).count(), len);
    }
}
