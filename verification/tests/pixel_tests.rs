use image_ascii::invert::{invert, invert_pixel};
use image_ascii::pixel::{Pixel, PixelGrid};

fn px(r: u8, g: u8, b: u8, a: u8) -> Pixel {
    Pixel { r, g, b, a }
}

fn numbered(width: u32, height: u32) -> PixelGrid {
    let mut pixels = Vec::new();
    for i in 0..(width * height) {
        let v = (i % 251) as u8;
        pixels.push(px(v, v.wrapping_mul(3), v.wrapping_add(7), 255 - v));
    }
    PixelGrid::new(width, height, pixels).unwrap()
}

#[test]
fn new_accepts_matching_dimensions() {
    let grid = PixelGrid::new(3, 2, vec![px(1, 2, 3, 4); 6]).unwrap();
    assert_eq!(grid.width(), 3);
    assert_eq!(grid.height(), 2);
    assert_eq!(grid.pixels().len(), 6);
}

#[test]
fn new_rejects_zero_width() {
    assert!(PixelGrid::new(0, 2, vec![]).is_none());
}

#[test]
fn new_rejects_zero_height() {
    assert!(PixelGrid::new(2, 0, vec![]).is_none());
}

#[test]
fn new_rejects_wrong_pixel_count() {
    assert!(PixelGrid::new(3, 2, vec![px(0, 0, 0, 0); 5]).is_none());
    assert!(PixelGrid::new(3, 2, vec![px(0, 0, 0, 0); 7]).is_none());
}

#[test]
fn get_is_row_major() {
    let grid = PixelGrid::new(
        2,
        2,
        vec![px(1, 0, 0, 0), px(2, 0, 0, 0), px(3, 0, 0, 0), px(4, 0, 0, 0)],
    )
    .unwrap();
    assert_eq!(grid.get(0, 0), Some(px(1, 0, 0, 0)));
    assert_eq!(grid.get(1, 0), Some(px(2, 0, 0, 0)));
    assert_eq!(grid.get(0, 1), Some(px(3, 0, 0, 0)));
    assert_eq!(grid.get(1, 1), Some(px(4, 0, 0, 0)));
}

#[test]
fn get_outside_is_none() {
    let grid = numbered(3, 2);
    assert_eq!(grid.get(3, 0), None);
    assert_eq!(grid.get(0, 2), None);
    assert_eq!(grid.get(u32::MAX, u32::MAX), None);
}

#[test]
fn to_raw_lays_channels_in_order() {
    let grid = PixelGrid::new(2, 1, vec![px(1, 2, 3, 4), px(5, 6, 7, 8)]).unwrap();
    assert_eq!(grid.to_raw(), vec![1, 2, 3, 4, 5, 6, 7, 8]);
}

#[test]
fn from_raw_reads_channels_in_order() {
    let grid = PixelGrid::from_raw(1, 2, &vec![1, 2, 3, 4, 5, 6, 7, 8]).unwrap();
    assert_eq!(grid.width(), 1);
    assert_eq!(grid.height(), 2);
    assert_eq!(grid.pixels(), &vec![px(1, 2, 3, 4), px(5, 6, 7, 8)]);
}

#[test]
fn from_raw_rejects_wrong_length() {
    assert!(PixelGrid::from_raw(1, 2, &vec![0; 7]).is_none());
    assert!(PixelGrid::from_raw(1, 2, &vec![0; 9]).is_none());
    assert!(PixelGrid::from_raw(1, 2, &vec![0; 4]).is_none());
    assert!(PixelGrid::from_raw(0, 2, &vec![]).is_none());
    assert!(PixelGrid::from_raw(2, 0, &vec![]).is_none());
}

#[test]
fn raw_round_trip_gives_the_same_grid() {
    let grid = numbered(7, 5);
    let back = PixelGrid::from_raw(7, 5, &grid.to_raw()).unwrap();
    assert_eq!(back, grid);
}

#[test]
fn clone_is_equal() {
    let grid = numbered(4, 3);
    assert_eq!(grid.clone(), grid);
}

#[test]
fn invert_pixel_complements_colour_and_keeps_alpha() {
    assert_eq!(invert_pixel(px(0, 255, 100, 42)), px(255, 0, 155, 42));
    assert_eq!(invert_pixel(px(1, 2, 3, 0)), px(254, 253, 252, 0));
}

#[test]
fn invert_complements_every_pixel() {
    let grid = PixelGrid::new(2, 1, vec![px(10, 20, 30, 40), px(255, 0, 128, 255)]).unwrap();
    let negative = invert(&grid);
    assert_eq!(negative.width(), 2);
    assert_eq!(negative.height(), 1);
    assert_eq!(negative.pixels(), &vec![px(245, 235, 225, 40), px(0, 255, 127, 255)]);
}

#[test]
fn invert_twice_is_identity() {
    let grid = numbered(9, 4);
    assert_eq!(invert(&invert(&grid)), grid);
}

#[test]
fn invert_leaves_alpha_untouched() {
    let grid = numbered(5, 5);
    let negative = invert(&grid);
    for (before, after) in grid.pixels().iter().zip(negative.pixels().iter()) {
        assert_eq!(before.a, after.a);
    }
}
