//! Pixels and grids of pixels, and their layout as bytes.

use vstd::prelude::*;

verus! {

/// One picture element: red, green, blue and alpha, eight bits each.
#[derive(Clone, Copy, Debug, PartialEq, Eq, Structural)]
pub struct Pixel {
    pub r: u8,
    pub g: u8,
    pub b: u8,
    pub a: u8,
}

/// What a pixel grid is, mathematically: its two sides and its pixels, row
/// after row from the top, each row from the left.
#[verifier::ext_equal]
pub struct GridModel {
    pub width: nat,
    pub height: nat,
    pub pixels: Seq<Pixel>,
}

impl GridModel {
    /// Both sides are positive and fit 32 bits, and there is exactly one pixel
    /// for each position.
    pub open spec fn wf(self) -> bool {
        &&& 1 <= self.width <= u32::MAX
        &&& 1 <= self.height <= u32::MAX
        &&& self.pixels.len() == self.width * self.height
    }

    /// The pixel in column `x` of row `y`.
    pub open spec fn at(self, x: int, y: int) -> Pixel
        recommends
            0 <= x < self.width,
            0 <= y < self.height,
    {
        self.pixels[y * self.width + x]
    }
}

/// The channel of `p` that stands at offset `c` in its four bytes.
pub open spec fn channel(p: Pixel, c: int) -> u8 {
    if c == 0 {
        p.r
    } else if c == 1 {
        p.g
    } else if c == 2 {
        p.b
    } else {
        p.a
    }
}

/// The pixels laid out as bytes, four per pixel in the order R, G, B, A.
pub open spec fn raw_of_pixels(pixels: Seq<Pixel>) -> Seq<u8> {
    Seq::new(4 * pixels.len(), |i: int| channel(pixels[i / 4], i % 4))
}

/// The pixel that the four bytes from offset `4 * i` spell.
pub open spec fn pixel_of_raw(raw: Seq<u8>, i: int) -> Pixel {
    Pixel { r: raw[4 * i], g: raw[4 * i + 1], b: raw[4 * i + 2], a: raw[4 * i + 3] }
}

/// The pixels that a byte buffer spells, four bytes per pixel.
pub open spec fn pixels_of_raw(raw: Seq<u8>) -> Seq<Pixel> {
    Seq::new(raw.len() / 4, |i: int| pixel_of_raw(raw, i))
}

/// Every pixel of `picked` occurs among those of `source`.
pub open spec fn drawn_from(picked: Seq<Pixel>, source: Seq<Pixel>) -> bool {
    forall|i: int| 0 <= i < picked.len() ==> source.contains(#[trigger] picked[i])
}

/// Laying pixels out as bytes and reading them back gives the same pixels.
pub proof fn lemma_pixels_of_raw_of_pixels(pixels: Seq<Pixel>)
    ensures
        pixels_of_raw(raw_of_pixels(pixels)) == pixels,
{
    let raw = raw_of_pixels(pixels);
    assert(raw.len() / 4 == pixels.len());
    assert forall|i: int| 0 <= i < pixels.len() implies pixel_of_raw(raw, i) == pixels[i] by {
        assert((4 * i) / 4 == i && (4 * i) % 4 == 0);
        assert((4 * i + 1) / 4 == i && (4 * i + 1) % 4 == 1);
        assert((4 * i + 2) / 4 == i && (4 * i + 2) % 4 == 2);
        assert((4 * i + 3) / 4 == i && (4 * i + 3) % 4 == 3);
    }
    assert(pixels_of_raw(raw) =~= pixels);
}

/// Reading a whole number of pixels from bytes and laying them out again gives
/// the same bytes.
pub proof fn lemma_raw_of_pixels_of_raw(raw: Seq<u8>)
    requires
        raw.len() % 4 == 0,
    ensures
        raw_of_pixels(pixels_of_raw(raw)) == raw,
{
    let pixels = pixels_of_raw(raw);
    assert(4 * pixels.len() == raw.len());
    assert forall|i: int| 0 <= i < raw.len() implies channel(pixels[i / 4], i % 4) == raw[i] by {
        assert(4 * (i / 4) + i % 4 == i);
    }
    assert(raw_of_pixels(pixels) =~= raw);
}

/// A rectangle of RGBA pixels with at least one pixel.
#[derive(Debug, PartialEq, Eq)]
pub struct PixelGrid {
    width: u32,
    height: u32,
    pixels: Vec<Pixel>,
}

impl View for PixelGrid {
    type V = GridModel;

    closed spec fn view(&self) -> GridModel {
        GridModel {
            width: self.width as nat,
            height: self.height as nat,
            pixels: self.pixels@,
        }
    }
}

impl Clone for PixelGrid {
    fn clone(&self) -> (copy: Self)
        ensures
            copy@ == self@,
    {
        proof {
            use_type_invariant(self);
        }
        let pixels = self.pixels.clone();
        assert(pixels@ =~= self.pixels@);
        PixelGrid { width: self.width, height: self.height, pixels }
    }
}

impl PixelGrid {
    #[verifier::type_invariant]
    spec fn inv(&self) -> bool {
        self@.wf()
    }

    /// The grid of the given sides and pixels, if there is one: both sides
    /// must be positive and the pixels as many as the sides ask for.
    pub fn new(width: u32, height: u32, pixels: Vec<Pixel>) -> (grid: Option<PixelGrid>)
        ensures
            grid is Some <==> width >= 1 && height >= 1 && pixels@.len() == width * height,
            grid matches Some(g) ==> g@ == (GridModel {
                width: width as nat,
                height: height as nat,
                pixels: pixels@,
            }),
    {
        if width == 0 || height == 0 {
            return None;
        }
        assert(width * height <= 0xFFFF_FFFE_0000_0001) by (nonlinear_arith)
            requires
                width <= 0xFFFF_FFFF,
                height <= 0xFFFF_FFFF,
        ;
        let area: u64 = (width as u64) * (height as u64);
        if pixels.len() as u64 != area {
            return None;
        }
        Some(PixelGrid { width, height, pixels })
    }

    /// The number of columns. Every grid is well formed, and each of the
    /// three accessors says so.
    pub fn width(&self) -> (w: u32)
        ensures
            w == self@.width,
            self@.wf(),
    {
        proof {
            use_type_invariant(self);
        }
        self.width
    }

    /// The number of rows.
    pub fn height(&self) -> (h: u32)
        ensures
            h == self@.height,
            self@.wf(),
    {
        proof {
            use_type_invariant(self);
        }
        self.height
    }

    /// The pixels, row after row.
    pub fn pixels(&self) -> (pixels: &Vec<Pixel>)
        ensures
            pixels@ == self@.pixels,
            self@.wf(),
    {
        proof {
            use_type_invariant(self);
        }
        &self.pixels
    }

    /// The pixel in column `x` of row `y`, if the grid has that position.
    pub fn get(&self, x: u32, y: u32) -> (pixel: Option<Pixel>)
        ensures
            pixel == if x < self@.width && y < self@.height {
                Some(self@.at(x as int, y as int))
            } else {
                None
            },
    {
        proof {
            use_type_invariant(self);
        }
        if x >= self.width || y >= self.height {
            return None;
        }
        let count: usize = self.pixels.len();
        assert(0 <= y * self.width && y * self.width + x < self.width * self.height)
            by (nonlinear_arith)
            requires
                x < self.width,
                y < self.height,
        ;
        let index: usize = (y as usize) * (self.width as usize) + (x as usize);
        Some(self.pixels[index])
    }

    /// The grid that `raw` spells with four bytes per pixel, if there is one:
    /// both sides must be positive and the bytes four times as many as the
    /// sides ask for pixels.
    pub fn from_raw(width: u32, height: u32, raw: &[u8]) -> (grid: Option<PixelGrid>)
        ensures
            grid is Some <==> width >= 1 && height >= 1 && raw@.len() == 4 * (width * height),
            grid matches Some(g) ==> g@ == (GridModel {
                width: width as nat,
                height: height as nat,
                pixels: pixels_of_raw(raw@),
            }),
    {
        if width == 0 || height == 0 {
            return None;
        }
        assert(width * height <= 0xFFFF_FFFE_0000_0001) by (nonlinear_arith)
            requires
                width <= 0xFFFF_FFFF,
                height <= 0xFFFF_FFFF,
        ;
        let area: u64 = (width as u64) * (height as u64);
        let len: usize = raw.len();
        if len % 4 != 0 || (len / 4) as u64 != area {
            return None;
        }
        let count: usize = len / 4;
        let mut pixels: Vec<Pixel> = Vec::new();
        let mut i: usize = 0;
        while i < count
            invariant
                i <= count,
                count == len / 4,
                len == raw@.len(),
                len % 4 == 0,
                pixels@.len() == i,
                forall|k: int| 0 <= k < i ==> pixels@[k] == pixel_of_raw(raw@, k),
            decreases count - i,
        {
            let pixel = Pixel {
                r: raw[4 * i],
                g: raw[4 * i + 1],
                b: raw[4 * i + 2],
                a: raw[4 * i + 3],
            };
            pixels.push(pixel);
            i = i + 1;
        }
        assert(pixels@ =~= pixels_of_raw(raw@));
        Some(PixelGrid { width, height, pixels })
    }

    /// The pixels as bytes, four per pixel in the order R, G, B, A.
    pub fn to_raw(&self) -> (raw: Vec<u8>)
        ensures
            raw@ == raw_of_pixels(self@.pixels),
    {
        let count: usize = self.pixels.len();
        let mut raw: Vec<u8> = Vec::new();
        let mut i: usize = 0;
        while i < count
            invariant
                i <= count,
                count == self.pixels@.len(),
                raw@.len() == 4 * i,
                forall|k: int| 0 <= k < 4 * i ==> raw@[k] == channel(self.pixels@[k / 4], k % 4),
            decreases count - i,
        {
            let pixel = self.pixels[i];
            raw.push(pixel.r);
            raw.push(pixel.g);
            raw.push(pixel.b);
            raw.push(pixel.a);
            i = i + 1;
        }
        assert(raw@ =~= raw_of_pixels(self.pixels@));
        raw
    }
}

} // verus!
