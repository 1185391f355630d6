//! From the bytes of a file to all that is shown of it.

use crate::ascii::{ascii_rendering, image_to_ascii};
use crate::codec::{decode, decoding, encoding, img_to_bytes};
use crate::error::PipelineError;
use crate::invert::{invert, inverted};
use crate::outside::base64_text;
use crate::present::{base64_fits, to_base64};
use vstd::prelude::*;

verus! {

/// What is shown of one file: the file itself and its negative as base64
/// text, and its rendition in ASCII characters.
#[derive(Debug)]
pub struct Rendition {
    pub picture: String,
    pub negative: String,
    pub ascii: String,
}

/// A rendition as contracts see it.
pub struct RenditionModel {
    pub picture: Seq<char>,
    pub negative: Seq<char>,
    pub ascii: Seq<char>,
}

impl View for Rendition {
    type V = RenditionModel;

    open spec fn view(&self) -> RenditionModel {
        RenditionModel { picture: self.picture@, negative: self.negative@, ascii: self.ascii@ }
    }
}

/// What is shown of a file with these bytes, or why nothing is. The first of
/// these that applies decides: the bytes do not decode to a picture; the
/// resolution does not suit the picture; the negative cannot be encoded; one
/// of the two files is too long for base64.
pub open spec fn rendition_of(bytes: Seq<u8>, resolution: nat) -> Result<
    RenditionModel,
    PipelineError,
> {
    match decoding(bytes) {
        None => Err(PipelineError::DecodeError),
        Some(grid) => match ascii_rendering(grid, resolution) {
            Err(e) => Err(e),
            Ok(ascii) => match encoding(inverted(grid)) {
                None => Err(PipelineError::EncodeError),
                Some(file) => if base64_fits(bytes.len()) && base64_fits(file.len()) {
                    Ok(
                        RenditionModel {
                            picture: base64_text(bytes),
                            negative: base64_text(file),
                            ascii,
                        },
                    )
                } else {
                    Err(PipelineError::EncodeError)
                },
            },
        },
    }
}

/// Decodes a file and makes what is shown of it: the file and the PNG file of
/// its negative in base64, and its rendition in ASCII characters at the given
/// resolution. On failure nothing is made.
pub fn render_file(data: &[u8], resolution: u32) -> (result: Result<Rendition, PipelineError>)
    ensures
        match result {
            Ok(shown) => rendition_of(data@, resolution as nat) == Ok::<
                RenditionModel,
                PipelineError,
            >(shown@),
            Err(e) => rendition_of(data@, resolution as nat) == Err::<
                RenditionModel,
                PipelineError,
            >(e),
        },
{
    let grid = match decode(data) {
        Ok(grid) => grid,
        Err(e) => {
            return Err(e);
        },
    };
    let ascii = match image_to_ascii(&grid, resolution) {
        Ok(ascii) => ascii,
        Err(e) => {
            return Err(e);
        },
    };
    let file = match img_to_bytes(&invert(&grid)) {
        Ok(file) => file,
        Err(e) => {
            return Err(e);
        },
    };
    let picture = match to_base64(data) {
        Some(text) => text,
        None => {
            return Err(PipelineError::EncodeError);
        },
    };
    let negative = match to_base64(file.as_slice()) {
        Some(text) => text,
        None => {
            return Err(PipelineError::EncodeError);
        },
    };
    Ok(Rendition { picture, negative, ascii })
}

} // verus!
