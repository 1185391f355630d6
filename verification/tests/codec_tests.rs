use image_ascii::codec::{decode, downsample, img_to_bytes};
use image_ascii::component::FileDataComponent;
use image_ascii::error::PipelineError;
use image_ascii::pixel::{Pixel, PixelGrid};
use image_ascii::present::to_base64;

const RGBA_2X2: [u8; 83] = [
    137, 80, 78, 71, 13, 10, 26, 10, 0, 0, 0, 13, 73, 72, 68, 82, 0, 0, 0, 2, 0, 0, 0, 2, 8, 6, 0,
    0, 0, 114, 182, 13, 36, 0, 0, 0, 26, 73, 68, 65, 84, 120, 218, 99, 224, 18, 145, 211, 48, 178,
    113, 11, 96, 136, 74, 201, 171, 104, 234, 153, 182, 0, 0, 33, 90, 5, 81, 78, 132, 216, 252, 0,
    0, 0, 0, 73, 69, 78, 68, 174, 66, 96, 130,
];

const RGB_2X1: [u8; 72] = [
    137, 80, 78, 71, 13, 10, 26, 10, 0, 0, 0, 13, 73, 72, 68, 82, 0, 0, 0, 2, 0, 0, 0, 1, 8, 2, 0,
    0, 0, 123, 64, 232, 221, 0, 0, 0, 15, 73, 68, 65, 84, 120, 218, 99, 96, 100, 98, 254, 245, 251,
    15, 0, 6, 3, 2, 248, 247, 237, 17, 241, 0, 0, 0, 0, 73, 69, 78, 68, 174, 66, 96, 130,
];

const GREY_1X1: [u8; 67] = [
    137, 80, 78, 71, 13, 10, 26, 10, 0, 0, 0, 13, 73, 72, 68, 82, 0, 0, 0, 1, 0, 0, 0, 1, 8, 0, 0,
    0, 0, 58, 126, 155, 85, 0, 0, 0, 10, 73, 68, 65, 84, 120, 218, 99, 56, 1, 0, 0, 202, 0, 201,
    52, 66, 39, 243, 0, 0, 0, 0, 73, 69, 78, 68, 174, 66, 96, 130,
];

fn p(r: u8, g: u8, b: u8, a: u8) -> Pixel {
    Pixel { r, g, b, a }
}

fn patterned(width: u32, height: u32) -> PixelGrid {
    let mut pixels = Vec::new();
    for i in 0..(width * height) {
        pixels.push(p((i * 7) as u8, (i * 13) as u8, (i * 29) as u8, (255 - i % 256) as u8));
    }
    PixelGrid::new(width, height, pixels).unwrap()
}

#[test]
fn decode_reads_an_rgba_png() {
    let grid = decode(&RGBA_2X2).unwrap();
    assert_eq!(grid.width(), 2);
    assert_eq!(grid.height(), 2);
    assert_eq!(
        grid.pixels(),
        &vec![p(10, 20, 30, 40), p(50, 60, 70, 80), p(90, 100, 110, 120), p(130, 140, 150, 160)]
    );
}

#[test]
fn decode_gives_opaque_alpha_to_an_rgb_png() {
    let grid = decode(&RGB_2X1).unwrap();
    assert_eq!(grid.width(), 2);
    assert_eq!(grid.height(), 1);
    assert_eq!(grid.pixels(), &vec![p(1, 2, 3, 255), p(250, 251, 252, 255)]);
}

#[test]
fn decode_spreads_grey_over_the_three_colours() {
    let grid = decode(&GREY_1X1).unwrap();
    assert_eq!(grid.pixels(), &vec![p(200, 200, 200, 255)]);
}

#[test]
fn decode_rejects_an_empty_buffer() {
    assert_eq!(decode(&[]), Err(PipelineError::DecodeError));
}

#[test]
fn decode_rejects_bytes_that_are_no_image() {
    assert_eq!(decode(b"this is not an image at all"), Err(PipelineError::DecodeError));
}

#[test]
fn decode_rejects_a_format_it_does_not_read() {
    // The first bytes of a JPEG file.
    assert_eq!(decode(&[0xff, 0xd8, 0xff, 0xe0, 0, 16, 74, 70, 73, 70, 0]), Err(PipelineError::DecodeError));
}

#[test]
fn decode_rejects_a_truncated_png() {
    assert_eq!(decode(&RGBA_2X2[..50]), Err(PipelineError::DecodeError));
    assert_eq!(decode(&RGBA_2X2[..8]), Err(PipelineError::DecodeError));
}

#[test]
fn decode_rejects_a_png_that_declares_zero_width() {
    let mut bytes = RGBA_2X2.to_vec();
    bytes[19] = 0;
    assert_eq!(decode(&bytes), Err(PipelineError::DecodeError));
}

#[test]
fn img_to_bytes_writes_a_png_file() {
    let file = img_to_bytes(&patterned(5, 3)).unwrap();
    assert_eq!(&file[..8], &[137, 80, 78, 71, 13, 10, 26, 10]);
    assert_ne!(file, patterned(5, 3).to_raw());
}

#[test]
fn img_to_bytes_is_deterministic() {
    assert_eq!(img_to_bytes(&patterned(6, 6)), img_to_bytes(&patterned(6, 6)));
}

#[test]
fn encode_then_decode_gives_the_same_grid() {
    let grid = patterned(17, 9);
    let file = img_to_bytes(&grid).unwrap();
    assert_eq!(decode(&file), Ok(grid));
}

#[test]
fn decode_encode_decode_gives_the_same_grid() {
    for bytes in [&RGBA_2X2[..], &RGB_2X1[..], &GREY_1X1[..]] {
        let first = decode(bytes).unwrap();
        let file = img_to_bytes(&first).unwrap();
        let second = decode(&file).unwrap();
        assert_eq!(second.width(), first.width());
        assert_eq!(second.height(), first.height());
        assert_eq!(second.pixels(), first.pixels());
    }
}

#[test]
fn downsample_rejects_a_zero_side() {
    assert!(downsample(&patterned(4, 4), 0, 2).is_none());
    assert!(downsample(&patterned(4, 4), 2, 0).is_none());
}

#[test]
fn downsample_refuses_sides_too_large_to_count() {
    assert!(downsample(&patterned(1, 1), u32::MAX, u32::MAX).is_none());
    assert!(downsample(&patterned(4, 4), u32::MAX, u32::MAX).is_none());
}

#[test]
fn downsample_can_enlarge() {
    let grid = patterned(2, 2);
    let large = downsample(&grid, 4, 6).unwrap();
    assert_eq!(large.width(), 4);
    assert_eq!(large.height(), 6);
    for pixel in large.pixels() {
        assert!(grid.pixels().contains(pixel));
    }
}

#[test]
fn downsample_to_the_same_sides_copies_the_grid() {
    let grid = patterned(6, 5);
    assert_eq!(downsample(&grid, 6, 5), Some(grid));
}

#[test]
fn downsample_picks_pixels_of_the_source() {
    let grid = patterned(12, 8);
    let small = downsample(&grid, 3, 2).unwrap();
    assert_eq!(small.width(), 3);
    assert_eq!(small.height(), 2);
    for pixel in small.pixels() {
        assert!(grid.pixels().contains(pixel));
    }
    assert_eq!(small.get(0, 0), grid.get(2, 2));
    assert_eq!(small.get(2, 1), grid.get(10, 6));
}

#[test]
fn to_base64_of_known_texts() {
    assert_eq!(to_base64(b""), Some("".to_string()));
    assert_eq!(to_base64(b"f"), Some("Zg==".to_string()));
    assert_eq!(to_base64(b"fo"), Some("Zm8=".to_string()));
    assert_eq!(to_base64(b"foo"), Some("Zm9v".to_string()));
    assert_eq!(to_base64(b"hello world"), Some("aGVsbG8gd29ybGQ=".to_string()));
    assert_eq!(to_base64(&[0xfb, 0xff, 0xfe]), Some("+//+".to_string()));
}

#[test]
fn to_base64_of_a_png_file() {
    assert_eq!(
        to_base64(&RGBA_2X2),
        Some(
            "iVBORw0KGgoAAAANSUhEUgAAAAIAAAACCAYAAABytg0kAAAAGklEQVR42mPgEpHTMLJxC2CISsmraOqZtgAAIVoFUU6E2PwAAAAASUVORK5CYII="
                .to_string()
        )
    );
}

#[test]
fn view_file_puts_the_payload_behind_the_prefix() {
    assert_eq!(FileDataComponent::view_file("Zm9v"), "data:image/png;base64,Zm9v");
    assert_eq!(FileDataComponent::view_file(""), "data:image/png;base64,");
}
