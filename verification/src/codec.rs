//! Decoding image files into grids, encoding grids as PNG files, and
//! resampling, each through the `image` crate.

use crate::error::PipelineError;
use crate::outside::{
    decoded_rgba, load_rgba, nearest_resized, png_encoded, resize_nearest, write_png,
};
use crate::pixel::{
    drawn_from, lemma_pixels_of_raw_of_pixels, pixels_of_raw, raw_of_pixels, GridModel, PixelGrid,
};
use vstd::prelude::*;

verus! {

/// The grid that a byte buffer decodes to, if it decodes to one: the picture
/// that `decoded_rgba` names, provided it has at least one pixel and four
/// bytes for each.
pub open spec fn decoding(bytes: Seq<u8>) -> Option<GridModel> {
    match decoded_rgba(bytes) {
        Some((width, height, raw)) => if 1 <= width <= u32::MAX && 1 <= height <= u32::MAX
            && raw.len() == 4 * (width * height) {
            Some(GridModel { width, height, pixels: pixels_of_raw(raw) })
        } else {
            None
        },
        None => None,
    }
}

/// The PNG file of a grid, if the encoder gives one.
pub open spec fn encoding(m: GridModel) -> Option<Seq<u8>> {
    png_encoded(m.width, m.height, raw_of_pixels(m.pixels))
}

/// The buffers that resampling a picture of this width to these sides builds
/// are no longer than a `usize` can count: four bytes for each pixel of
/// `width` by `new_height`, and of `new_width` by `new_height`.
pub open spec fn resize_fits(width: nat, new_width: nat, new_height: nat) -> bool {
    4 * (width * new_height) <= usize::MAX && 4 * (new_width * new_height) <= usize::MAX
}

/// The codec loses nothing of a grid: the file it writes for the grid, if it
/// writes one, spells to the decoder the grid's own sides and channel bytes.
pub open spec fn lossless_on(m: GridModel) -> bool {
    encoding(m) matches Some(file) ==> decoded_rgba(file) == Some(
        (m.width, m.height, raw_of_pixels(m.pixels)),
    )
}

/// The grid resampled to the given sides by picking nearest neighbours.
pub open spec fn downsampled(m: GridModel, new_width: nat, new_height: nat) -> GridModel {
    GridModel {
        width: new_width,
        height: new_height,
        pixels: pixels_of_raw(
            nearest_resized(m.width, m.height, raw_of_pixels(m.pixels), new_width, new_height),
        ),
    }
}

/// This library's share of a lossless round trip: a file that spells, to the
/// decoder, the sides and the channel bytes of a grid decodes to that very
/// grid. That the PNG file written for a grid does spell them is the codec's
/// doing, and is not proved here.
pub proof fn lemma_faithful_file_decodes_to_its_grid(m: GridModel, file: Seq<u8>)
    requires
        m.wf(),
    ensures
        decoded_rgba(file) == Some((m.width, m.height, raw_of_pixels(m.pixels))) ==> decoding(file)
            == Some(m),
{
    lemma_pixels_of_raw_of_pixels(m.pixels);
    if decoded_rgba(file) == Some((m.width, m.height, raw_of_pixels(m.pixels))) {
        assert(decoding(file).unwrap() =~= m);
    }
}

/// The round trip, as far as it is this library's: a grid that was decoded
/// from some bytes, encoded and decoded again is the same grid, sides and
/// pixels, wherever the codec loses nothing of it. That premise is the
/// codec's to keep and is not proved here.
pub proof fn lemma_round_trip_where_codec_is_lossless(bytes: Seq<u8>, m: GridModel, file: Seq<u8>)
    ensures
        decoding(bytes) == Some(m) && encoding(m) == Some(file) && lossless_on(m) ==> decoding(file)
            == Some(m),
{
    if decoding(bytes) == Some(m) && encoding(m) == Some(file) && lossless_on(m) {
        lemma_decoded_grid_is_wf(bytes);
        lemma_faithful_file_decodes_to_its_grid(m, file);
    }
}

/// Whatever bytes decode to is a well-formed grid.
pub proof fn lemma_decoded_grid_is_wf(bytes: Seq<u8>)
    ensures
        decoding(bytes) matches Some(m) ==> m.wf(),
{
    if decoding(bytes) is Some {
        let loaded = decoded_rgba(bytes).unwrap();
        assert(decoding(bytes).unwrap().pixels.len() == loaded.2.len() / 4);
    }
}

/// Decodes an image file held in memory. The result is a grid exactly when
/// the bytes decode to a picture with at least one pixel; every failure is a
/// `DecodeError`, and nothing is returned beside it.
pub fn decode(bytes: &[u8]) -> (result: Result<PixelGrid, PipelineError>)
    ensures
        match result {
            Ok(grid) => decoding(bytes@) == Some(grid@),
            Err(e) => e == PipelineError::DecodeError && decoding(bytes@) is None,
        },
{
    match load_rgba(bytes) {
        Ok((width, height, raw)) => match PixelGrid::from_raw(width, height, raw.as_slice()) {
            Some(grid) => Ok(grid),
            None => Err(PipelineError::DecodeError),
        },
        Err(_) => Err(PipelineError::DecodeError),
    }
}

/// Encodes a grid as a PNG file in memory. The result is the file exactly
/// when the encoder gives one; every failure is an `EncodeError`.
pub fn img_to_bytes(img: &PixelGrid) -> (result: Result<Vec<u8>, PipelineError>)
    ensures
        match result {
            Ok(file) => encoding(img@) == Some(file@),
            Err(e) => e == PipelineError::EncodeError && encoding(img@) is None,
        },
{
    let width: u32 = img.width();
    let height: u32 = img.height();
    let raw = img.to_raw();
    match write_png(width, height, raw.as_slice()) {
        Ok(file) => Ok(file),
        Err(_) => Err(PipelineError::EncodeError),
    }
}

/// Resamples a grid to the given sides by picking nearest neighbours.
///
/// The result is `None` exactly when one of the new sides is zero or the
/// buffers for the new sides would be longer than a `usize` can count; sides
/// no greater than the grid's own always fit. Every pixel of the result is a
/// pixel of `grid`, and resampling to the grid's own sides gives the grid.
pub fn downsample(grid: &PixelGrid, new_width: u32, new_height: u32) -> (result: Option<PixelGrid>)
    ensures
        result is Some <==> new_width >= 1 && new_height >= 1 && resize_fits(
            grid@.width,
            new_width as nat,
            new_height as nat,
        ),
        1 <= new_width <= grid@.width && 1 <= new_height <= grid@.height ==> result is Some,
        result matches Some(small) ==> small@ == downsampled(
            grid@,
            new_width as nat,
            new_height as nat,
        ) && small@.wf() && drawn_from(small@.pixels, grid@.pixels),
        result matches Some(small) ==> (new_width == grid@.width && new_height == grid@.height
            ==> small@ == grid@),
{
    if new_width == 0 || new_height == 0 {
        return None;
    }
    let width: u32 = grid.width();
    let height: u32 = grid.height();
    let raw = grid.to_raw();
    let len: usize = raw.len();
    assert(width * new_height <= 0xFFFF_FFFE_0000_0001 && new_width * new_height
        <= 0xFFFF_FFFE_0000_0001) by (nonlinear_arith)
        requires
            width <= 0xFFFF_FFFF,
            new_width <= 0xFFFF_FFFF,
            new_height <= 0xFFFF_FFFF,
    ;
    let limit: u64 = (usize::MAX / 4) as u64;
    let tall: u64 = (width as u64) * (new_height as u64);
    let area: u64 = (new_width as u64) * (new_height as u64);
    proof {
        if new_width <= width && new_height <= height {
            assert(width * new_height <= width * height && new_width * new_height <= width
                * height) by (nonlinear_arith)
                requires
                    1 <= new_width <= width,
                    1 <= new_height <= height,
            ;
        }
    }
    if tall > limit || area > limit {
        return None;
    }
    proof {
        lemma_pixels_of_raw_of_pixels(grid@.pixels);
    }
    let out = resize_nearest(width, height, raw.as_slice(), new_width, new_height);
    let resized = out.unwrap();
    let small = PixelGrid::from_raw(new_width, new_height, resized.as_slice()).unwrap();
    assert(small@.pixels.len() == new_width * new_height);
    proof {
        if new_width == width && new_height == height {
            assert(small@ =~= grid@);
        }
    }
    Some(small)
}

} // verus!
