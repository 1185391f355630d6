//! Rendering a grid in ASCII characters: a character for the brightness of
//! each pixel, after downsampling.

use crate::codec::{downsample, downsampled};
use crate::error::PipelineError;
use crate::pixel::{GridModel, Pixel, PixelGrid};
use vstd::arithmetic::div_mod::{lemma_fundamental_div_mod, lemma_fundamental_div_mod_converse};
use vstd::prelude::*;

verus! {

/// The characters that stand for brightness, from the darkest pixel to the
/// brightest: the sparsest glyph first, the densest last.
pub open spec fn ramp() -> Seq<char> {
    seq![' ', '.', ',', ':', ';', 'o', 'x', '9', '$', '%', '#', '@']
}

/// Ten thousand times the luminance of a pixel by the weights of ITU-R
/// BT.709: 0.2126 for red, 0.7152 for green and 0.0722 for blue.
pub open spec fn luminance_e4(p: Pixel) -> int {
    2126 * p.r + 7152 * p.g + 722 * p.b
}

/// The quotient `n / d` rounded to the nearest integer, a half rounded away
/// from zero, for `n` not negative and `d` positive.
pub open spec fn round_div(n: int, d: int) -> int {
    (2 * n + d) / (2 * d)
}

/// The place in the ramp of a pixel: eleven times its luminance as a fraction
/// of 255, rounded to the nearest integer, a half rounded up.
pub open spec fn ramp_index(p: Pixel) -> int {
    round_div(11 * luminance_e4(p), 10000 * 255int)
}

/// The character that stands for a pixel.
pub open spec fn symbol(p: Pixel) -> char {
    ramp()[ramp_index(p)]
}

/// The characters of row `y` of a grid, closed by a line break.
pub open spec fn row_text(m: GridModel, y: int) -> Seq<char> {
    Seq::new(m.width, |x: int| symbol(m.at(x, y))).push('\n')
}

/// The text of the first `rows` rows of a grid.
pub open spec fn rows_text(m: GridModel, rows: nat) -> Seq<char>
    decreases rows,
{
    if rows == 0 {
        Seq::empty()
    } else {
        rows_text(m, (rows - 1) as nat) + row_text(m, rows - 1)
    }
}

/// The text of a grid: one character for each pixel, row after row, and a line
/// break after every row, the last one too.
pub open spec fn grid_text(m: GridModel) -> Seq<char> {
    rows_text(m, m.height)
}

/// What rendering a grid at a resolution gives: an error where the resolution
/// is zero or greater than a side of the grid, else the text of the grid
/// resampled to the sides divided by the resolution, rounded down.
pub open spec fn ascii_rendering(m: GridModel, resolution: nat) -> Result<Seq<char>, PipelineError> {
    if resolution == 0 || resolution > m.width || resolution > m.height {
        Err(PipelineError::InvalidResolution)
    } else {
        Ok(grid_text(downsampled(m, m.width / resolution, m.height / resolution)))
    }
}

/// Every pixel of the grid is shown by the character `s`.
pub open spec fn all_show(m: GridModel, s: char) -> bool {
    forall|i: int| 0 <= i < m.pixels.len() ==> symbol(#[trigger] m.pixels[i]) == s
}

/// The text holds nothing but the character `s` and line breaks.
pub open spec fn shows_only(text: Seq<char>, s: char) -> bool {
    forall|i: int| 0 <= i < text.len() ==> #[trigger] text[i] == s || text[i] == '\n'
}

/// The text is `rows` lines of `columns` characters, each line closed by a
/// line break that is the only one in it.
pub open spec fn has_shape(text: Seq<char>, columns: nat, rows: nat) -> bool {
    &&& text.len() == rows * (columns + 1)
    &&& forall|i: int|
        0 <= i < text.len() ==> (#[trigger] text[i] == '\n' <==> i % (columns + 1) as int
            == columns)
}

/// `round_div` rounds to the nearest integer: twice the distance between the
/// result and the exact quotient is at most one, and where it is exactly one
/// the result is the greater of the two neighbours.
pub proof fn lemma_round_div_is_nearest(n: int, d: int)
    requires
        0 <= n,
        0 < d,
    ensures
        2 * n - d < 2 * d * round_div(n, d) <= 2 * n + d,
        0 <= round_div(n, d),
{
    let q = round_div(n, d);
    lemma_fundamental_div_mod(2 * n + d, 2 * d);
    assert(2 * n + d == (2 * d) * q + (2 * n + d) % (2 * d));
    assert((2 * d) * q == 2 * d * q) by (nonlinear_arith);
    assert(0 <= q) by (nonlinear_arith)
        requires
            2 * n - d < 2 * d * q,
            0 <= n,
            0 < d,
    ;
}

/// The place of every pixel lies within the ramp, and its character is no
/// line break.
pub proof fn lemma_symbol_in_ramp(p: Pixel)
    ensures
        0 <= ramp_index(p) <= 11,
        symbol(p) != '\n',
{
    assert(0 <= luminance_e4(p) <= 2550000);
}

/// Pixels without red, green and blue are shown by the first character of the
/// ramp, a blank; pixels with all three at 255 by the last, `@`. Alpha has no
/// part in it.
pub proof fn lemma_black_and_white(p: Pixel)
    ensures
        p.r == 0 && p.g == 0 && p.b == 0 ==> symbol(p) == ' ',
        p.r == 255 && p.g == 255 && p.b == 255 ==> symbol(p) == '@',
{
}

/// The text of the first `rows` rows of a grid is `rows` lines of as many
/// characters as the grid has columns, and the character at column `x` of
/// line `y` stands for the pixel at that place.
pub proof fn lemma_rows_text(m: GridModel, rows: nat)
    requires
        m.wf(),
        rows <= m.height,
    ensures
        has_shape(rows_text(m, rows), m.width, rows),
        forall|x: int, y: int|
            0 <= x < m.width && 0 <= y < rows ==> rows_text(m, rows)[y * (m.width + 1) + x]
                == symbol(#[trigger] m.at(x, y)),
    decreases rows,
{
    let w = m.width as int;
    let text = rows_text(m, rows);
    if rows == 0 {
        assert(0 * (w + 1) == 0);
    } else {
        let before = rows_text(m, (rows - 1) as nat);
        let row = row_text(m, rows - 1);
        lemma_rows_text(m, (rows - 1) as nat);
        assert(text == before + row);
        let start = (rows - 1) * (w + 1);
        assert(before.len() == start);
        assert(rows * (w + 1) == start + (w + 1)) by (nonlinear_arith)
            requires
                start == (rows - 1) * (w + 1),
        ;
        assert(text.len() == rows * (w + 1));
        assert forall|i: int| 0 <= i < text.len() implies (#[trigger] text[i] == '\n' <==> i % (w
            + 1) == w) by {
            if i < start {
                assert(text[i] == before[i]);
            } else {
                let x = i - start;
                assert(text[i] == row[x]);
                lemma_fundamental_div_mod_converse(i, w + 1, rows - 1, x);
                if x < w {
                    lemma_symbol_in_ramp(m.at(x, rows - 1));
                }
            }
        }
        assert forall|x: int, y: int| 0 <= x < w && 0 <= y < rows implies text[y * (w + 1) + x]
            == symbol(#[trigger] m.at(x, y)) by {
            if y < rows - 1 {
                assert(y * (w + 1) + x < start) by (nonlinear_arith)
                    requires
                        0 <= x < w,
                        0 <= y < rows - 1,
                        start == (rows - 1) * (w + 1),
                ;
                assert(0 <= y * (w + 1) + x) by (nonlinear_arith)
                    requires
                        0 <= x,
                        0 <= y,
                        0 <= w,
                ;
                assert(text[y * (w + 1) + x] == before[y * (w + 1) + x]);
            } else {
                assert(text[start + x] == row[x]);
            }
        }
    }
}

/// The text of a grid has as many lines as the grid has rows, each of as many
/// characters as the grid has columns.
pub proof fn lemma_grid_text_shape(m: GridModel)
    requires
        m.wf(),
    ensures
        has_shape(grid_text(m), m.width, m.height),
{
    lemma_rows_text(m, m.height);
}

/// The text of a grid whose pixels are all shown by one character holds
/// nothing but that character and line breaks.
pub proof fn lemma_one_symbol_text(m: GridModel, s: char)
    requires
        m.wf(),
        all_show(m, s),
    ensures
        shows_only(grid_text(m), s),
{
    lemma_one_symbol_rows(m, s, m.height);
}

/// The text of a grid whose pixels all lack red, green and blue is blank
/// throughout, and that of a grid whose pixels all have the three at 255 is
/// `@` throughout, line breaks apart.
pub proof fn lemma_black_and_white_text(m: GridModel)
    requires
        m.wf(),
    ensures
        (forall|i: int|
            0 <= i < m.pixels.len() ==> (#[trigger] m.pixels[i]).r == 0 && m.pixels[i].g == 0
                && m.pixels[i].b == 0) ==> shows_only(grid_text(m), ' '),
        (forall|i: int|
            0 <= i < m.pixels.len() ==> (#[trigger] m.pixels[i]).r == 255 && m.pixels[i].g == 255
                && m.pixels[i].b == 255) ==> shows_only(grid_text(m), '@'),
{
    if forall|i: int|
        0 <= i < m.pixels.len() ==> (#[trigger] m.pixels[i]).r == 0 && m.pixels[i].g == 0
            && m.pixels[i].b == 0 {
        assert forall|i: int| 0 <= i < m.pixels.len() implies symbol(#[trigger] m.pixels[i])
            == ' ' by {
            lemma_black_and_white(m.pixels[i]);
        }
        lemma_one_symbol_text(m, ' ');
    }
    if forall|i: int|
        0 <= i < m.pixels.len() ==> (#[trigger] m.pixels[i]).r == 255 && m.pixels[i].g == 255
            && m.pixels[i].b == 255 {
        assert forall|i: int| 0 <= i < m.pixels.len() implies symbol(#[trigger] m.pixels[i])
            == '@' by {
            lemma_black_and_white(m.pixels[i]);
        }
        lemma_one_symbol_text(m, '@');
    }
}

proof fn lemma_one_symbol_rows(m: GridModel, s: char, rows: nat)
    requires
        m.wf(),
        all_show(m, s),
        rows <= m.height,
    ensures
        shows_only(rows_text(m, rows), s),
    decreases rows,
{
    if rows > 0 {
        let before = rows_text(m, (rows - 1) as nat);
        let row = row_text(m, rows - 1);
        let text = rows_text(m, rows);
        lemma_one_symbol_rows(m, s, (rows - 1) as nat);
        assert forall|i: int| 0 <= i < text.len() implies #[trigger] text[i] == s || text[i]
            == '\n' by {
            if i < before.len() {
                assert(text[i] == before[i]);
            } else {
                let x = i - before.len();
                assert(text[i] == row[x]);
                if x < m.width {
                    let y = rows - 1;
                    assert(0 <= y * m.width + x < m.width * m.height) by (nonlinear_arith)
                        requires
                            0 <= x < m.width,
                            0 <= y < m.height,
                    ;
                    assert(symbol(m.pixels[y * m.width + x]) == s);
                }
            }
        }
    }
}

/// Rendering depends on the grid and the resolution alone: equal arguments
/// give equal results.
pub proof fn lemma_rendering_is_a_function(a: GridModel, b: GridModel, ra: nat, rb: nat)
    requires
        a == b,
        ra == rb,
    ensures
        ascii_rendering(a, ra) == ascii_rendering(b, rb),
{
}

/// The character at a place of the ramp; places beyond the end count as the
/// last.
pub fn ramp_char(index: usize) -> (c: char)
    ensures
        c == ramp()[if index <= 11 { index as int } else { 11 }],
{
    if index == 0 {
        ' '
    } else if index == 1 {
        '.'
    } else if index == 2 {
        ','
    } else if index == 3 {
        ':'
    } else if index == 4 {
        ';'
    } else if index == 5 {
        'o'
    } else if index == 6 {
        'x'
    } else if index == 7 {
        '9'
    } else if index == 8 {
        '$'
    } else if index == 9 {
        '%'
    } else if index == 10 {
        '#'
    } else {
        '@'
    }
}

/// The character that stands for a pixel.
pub fn symbol_of(p: Pixel) -> (c: char)
    ensures
        c == symbol(p),
{
    let luminance: u32 = 2126 * (p.r as u32) + 7152 * (p.g as u32) + 722 * (p.b as u32);
    let index: u32 = (22 * luminance + 2550000) / 5100000;
    proof {
        lemma_symbol_in_ramp(p);
    }
    ramp_char(index as usize)
}

/// The text of a grid: one character for each pixel and a line break after
/// every row.
pub fn render_grid(grid: &PixelGrid) -> (text: String)
    ensures
        text@ == grid_text(grid@),
{
    let width: usize = grid.width() as usize;
    let height: usize = grid.height() as usize;
    let pixels = grid.pixels();
    let count: usize = pixels.len();
    let mut text = String::new();
    let mut y: usize = 0;
    while y < height
        invariant
            y <= height,
            count == pixels@.len(),
            grid@.wf(),
            width == grid@.width,
            height == grid@.height,
            pixels@ == grid@.pixels,
            text@ == rows_text(grid@, y as nat),
        decreases height - y,
    {
        let ghost before = text@;
        let mut x: usize = 0;
        while x < width
            invariant
                x <= width,
                y < height,
                count == pixels@.len(),
                grid@.wf(),
                width == grid@.width,
                height == grid@.height,
                pixels@ == grid@.pixels,
                text@ == before + Seq::new(x as nat, |k: int| symbol(grid@.at(k, y as int))),
            decreases width - x,
        {
            assert(0 <= y * width && y * width + x < width * height) by (nonlinear_arith)
                requires
                    x < width,
                    y < height,
            ;
            let pixel = pixels[y * width + x];
            text.push(symbol_of(pixel));
            assert(text@ =~= before + Seq::new(
                (x + 1) as nat,
                |k: int| symbol(grid@.at(k, y as int)),
            ));
            x = x + 1;
        }
        text.push('\n');
        assert(text@ =~= before + row_text(grid@, y as int));
        y = y + 1;
    }
    text
}

/// Renders a grid in ASCII characters at one character for each square of
/// `resolution` by `resolution` pixels.
///
/// The result is an `InvalidResolution` error exactly when the resolution is
/// zero or greater than a side of the grid. Otherwise it is the text of the
/// grid resampled by nearest neighbours to the sides divided by the
/// resolution, rounded down: that many lines of that many characters, and,
/// where one character shows every pixel of the grid, nothing but that
/// character and line breaks. At resolution 1 it is the text of the grid
/// itself.
pub fn image_to_ascii(image: &PixelGrid, resolution: u32) -> (result: Result<String, PipelineError>)
    ensures
        result is Err <==> resolution == 0 || resolution > image@.width || resolution
            > image@.height,
        match result {
            Ok(text) => {
                &&& ascii_rendering(image@, resolution as nat) == Ok::<Seq<char>, PipelineError>(
                    text@,
                )
                &&& has_shape(
                    text@,
                    image@.width / (resolution as nat),
                    image@.height / (resolution as nat),
                )
                &&& forall|s: char| all_show(image@, s) ==> shows_only(text@, s)
                &&& resolution == 1 ==> text@ == grid_text(image@)
            },
            Err(e) => ascii_rendering(image@, resolution as nat) == Err::<
                Seq<char>,
                PipelineError,
            >(e),
        },
{
    let width: u32 = image.width();
    let height: u32 = image.height();
    if resolution == 0 || resolution > width || resolution > height {
        return Err(PipelineError::InvalidResolution);
    }
    assert(width / resolution >= 1 && height / resolution >= 1) by (nonlinear_arith)
        requires
            1 <= resolution <= width,
            resolution <= height,
    ;
    let columns: u32 = width / resolution;
    let rows: u32 = height / resolution;
    let small = downsample(image, columns, rows).unwrap();
    let text = render_grid(&small);
    proof {
        let m = small@;
        lemma_grid_text_shape(m);
        assert forall|s: char| all_show(image@, s) implies shows_only(text@, s) by {
            assert forall|i: int| 0 <= i < m.pixels.len() implies symbol(#[trigger] m.pixels[i])
                == s by {
                assert(image@.pixels.contains(m.pixels[i]));
            }
            lemma_one_symbol_text(m, s);
        }
    }
    Ok(text)
}

} // verus!
