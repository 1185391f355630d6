//! What is taken on trust of the `image` crate, the `base64` crate and the
//! standard library. Each function here makes one outside call and converts
//! its arguments and result; its contract is believed, not proved. A result
//! that would take pages to state has a name instead, an uninterpreted
//! function of the arguments.

use crate::codec::resize_fits;
use crate::pixel::{drawn_from, pixels_of_raw};
use crate::present::base64_fits;
use vstd::prelude::*;

verus! {

/// The error type of the `image` crate. Nothing is known of what a value of it
/// holds; it is only ever told apart from success.
#[verifier::external_type_specification]
#[verifier::external_body]
pub struct ExImageError(image::ImageError);

/// What `image::load_from_memory` makes of a byte buffer, converted to RGBA
/// with eight bits per channel: the width, the height and the channel bytes of
/// the picture, or `None` where it reports an error.
pub uninterp spec fn decoded_rgba(bytes: Seq<u8>) -> Option<(nat, nat, Seq<u8>)>;

/// The PNG file that the `image` crate writes for an RGBA picture of the given
/// width, height and channel bytes, or `None` where it reports an error.
pub uninterp spec fn png_encoded(width: nat, height: nat, raw: Seq<u8>) -> Option<Seq<u8>>;

/// The channel bytes that `image::imageops::resize` with the nearest-neighbour
/// filter returns for an RGBA picture of the given width, height and channel
/// bytes and the given new width and height.
pub uninterp spec fn nearest_resized(
    width: nat,
    height: nat,
    raw: Seq<u8>,
    new_width: nat,
    new_height: nat,
) -> Seq<u8>;

/// Calls `image::load_from_memory`, which guesses the container format from
/// the first bytes and decodes the whole picture, and then
/// `DynamicImage::to_rgba8`. Taken on trust: the outcome depends on the bytes
/// alone, so it has the name `decoded_rgba`. Nothing is claimed of the sizes
/// returned; `decode` tests them.
#[verifier::external_body]
pub(crate) fn load_rgba(
    bytes: &[u8],
) -> (loaded: Result<(u32, u32, Vec<u8>), image::ImageError>)
    ensures
        match loaded {
            Ok((width, height, raw)) => decoded_rgba(bytes@) == Some(
                (width as nat, height as nat, raw@),
            ),
            Err(_) => decoded_rgba(bytes@) is None,
        },
{
    let rgba = image::load_from_memory(bytes)?.to_rgba8();
    Ok((rgba.width(), rgba.height(), rgba.into_raw()))
}

/// Calls `image::write_buffer_with_format` for an RGBA picture and the PNG
/// format, writing into memory. Taken on trust: the outcome depends on the
/// arguments alone, so it has the name `png_encoded`. The encoder panics on a
/// buffer whose length is not four bytes per pixel, hence the precondition.
#[verifier::external_body]
pub(crate) fn write_png(
    width: u32,
    height: u32,
    raw: &[u8],
) -> (written: Result<Vec<u8>, image::ImageError>)
    requires
        raw@.len() == 4 * (width * height),
    ensures
        match written {
            Ok(file) => png_encoded(width as nat, height as nat, raw@) == Some(file@),
            Err(_) => png_encoded(width as nat, height as nat, raw@) is None,
        },
{
    let mut file = std::io::Cursor::new(Vec::new());
    image::write_buffer_with_format(
        &mut file,
        raw,
        width,
        height,
        image::ColorType::Rgba8,
        image::ImageFormat::Png,
    )?;
    Ok(file.into_inner())
}

/// Calls `image::imageops::resize` with `FilterType::Nearest` on an RGBA
/// picture over `raw`. The call builds one buffer of `width` by `new_height`
/// pixels and one of `new_width` by `new_height`, and panics where four times
/// such a product is more than a `usize` can hold; it also reads pixels that
/// an empty side does not have. The precondition leaves those inputs out.
/// Memory that the machine does not grant is no part of this contract, as it
/// is none of `Vec`'s. Taken on trust for the others:
/// - the buffer is accepted, since it has four bytes per pixel;
/// - the result depends on the arguments alone, so it has the name
///   `nearest_resized`;
/// - it has four bytes for each pixel of the new size;
/// - each of its pixels is a copy of one pixel of the source. Rows are
///   sampled, then columns; with this filter the window of every sample is
///   one pixel wide and its weight is one, so the sum that the sampler forms
///   is that pixel;
/// - where the size does not change, the source is copied as it is.
#[verifier::external_body]
pub(crate) fn resize_nearest(
    width: u32,
    height: u32,
    raw: &[u8],
    new_width: u32,
    new_height: u32,
) -> (out: Option<Vec<u8>>)
    requires
        width != 0,
        height != 0,
        new_width != 0,
        new_height != 0,
        raw@.len() == 4 * (width * height),
        resize_fits(width as nat, new_width as nat, new_height as nat),
    ensures
        match out {
            Some(resized) => {
                &&& resized@ == nearest_resized(
                    width as nat,
                    height as nat,
                    raw@,
                    new_width as nat,
                    new_height as nat,
                )
                &&& resized@.len() == 4 * (new_width * new_height)
                &&& drawn_from(pixels_of_raw(resized@), pixels_of_raw(raw@))
                &&& new_width == width && new_height == height ==> resized@ == raw@
            },
            None => false,
        },
{
    let source = image::ImageBuffer::<image::Rgba<u8>, &[u8]>::from_raw(width, height, raw)?;
    let filter = image::imageops::FilterType::Nearest;
    Some(image::imageops::resize(&source, new_width, new_height, filter).into_raw())
}

/// The text that `base64::encode` returns for a byte sequence: its base64 form
/// in the standard alphabet, with padding.
pub uninterp spec fn base64_text(bytes: Seq<u8>) -> Seq<char>;

/// Calls `base64::encode`. Taken on trust: the text depends on the bytes
/// alone, so it has the name `base64_text`. The call panics where four
/// characters for every three bytes, the last group filled up, are more than
/// a `usize` can count; the precondition leaves those inputs out.
#[verifier::external_body]
pub(crate) fn base64_encode(data: &[u8]) -> (text: String)
    requires
        base64_fits(data@.len()),
    ensures
        text@ == base64_text(data@),
{
    base64::encode(data)
}

/// `String::push` appends one character to the end of the string. Taken on
/// trust from the documentation of the standard library.
pub assume_specification[ String::push ](text: &mut String, ch: char)
    ensures
        final(text)@ == old(text)@.push(ch),
;

} // verus!
