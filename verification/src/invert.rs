//! The colour negative.

use crate::pixel::{GridModel, Pixel, PixelGrid};
use vstd::prelude::*;

verus! {

/// The negative of a pixel: red, green and blue are each replaced by what they
/// lack to 255; alpha stays.
pub open spec fn inverted_pixel(p: Pixel) -> Pixel {
    Pixel { r: (255 - p.r) as u8, g: (255 - p.g) as u8, b: (255 - p.b) as u8, a: p.a }
}

/// The negative of a grid: the same sides, and every pixel replaced by its
/// negative.
pub open spec fn inverted(m: GridModel) -> GridModel {
    GridModel {
        width: m.width,
        height: m.height,
        pixels: Seq::new(m.pixels.len(), |i: int| inverted_pixel(m.pixels[i])),
    }
}

/// Inverting is an involution that leaves alpha alone: the negative of the
/// negative of a grid is the grid itself, and every pixel of the negative has
/// the alpha of the pixel it came from.
pub proof fn lemma_invert_involution(m: GridModel)
    ensures
        inverted(inverted(m)) == m,
        inverted(m).pixels.len() == m.pixels.len(),
        forall|i: int| 0 <= i < m.pixels.len() ==> (#[trigger] inverted(m).pixels[i]).a == m.pixels[i].a,
{
    assert(inverted(inverted(m)).pixels =~= m.pixels);
    assert(inverted(inverted(m)) =~= m);
}

/// The negative of a well-formed grid is well formed.
pub proof fn lemma_inverted_wf(m: GridModel)
    requires
        m.wf(),
    ensures
        inverted(m).wf(),
{
}

/// The negative of one pixel.
pub fn invert_pixel(p: Pixel) -> (q: Pixel)
    ensures
        q == inverted_pixel(p),
{
    Pixel { r: 255 - p.r, g: 255 - p.g, b: 255 - p.b, a: p.a }
}

/// The negative of a grid, as a new grid.
pub fn invert(grid: &PixelGrid) -> (negative: PixelGrid)
    ensures
        negative@ == inverted(grid@),
{
    let source = grid.pixels();
    let count: usize = source.len();
    let mut pixels: Vec<Pixel> = Vec::new();
    let mut i: usize = 0;
    while i < count
        invariant
            i <= count,
            count == source@.len(),
            pixels@.len() == i,
            forall|k: int| 0 <= k < i ==> pixels@[k] == inverted_pixel(source@[k]),
        decreases count - i,
    {
        pixels.push(invert_pixel(source[i]));
        i = i + 1;
    }
    assert(pixels@ =~= inverted(grid@).pixels);
    let negative = PixelGrid::new(grid.width(), grid.height(), pixels).unwrap();
    assert(negative@ =~= inverted(grid@));
    negative
}

} // verus!
