//! Pixel grids and what can be made of them: the colour negative, a rendition
//! in ASCII characters, PNG bytes and base64 text for inline display, and the
//! bookkeeping of a page that shows all of these for the files a user picks.
//!
//! The PNG codec, the resampling filter and the base64 alphabet come from the
//! `image` and `base64` crates. What is taken on trust of them, and of one
//! function of the standard library, stands in `outside` and nowhere else;
//! every other function is verified against its contract.

pub mod ascii;
pub mod codec;
pub mod component;
pub mod error;
pub mod invert;
pub mod outside;
pub mod pipeline;
pub mod pixel;
pub mod present;
