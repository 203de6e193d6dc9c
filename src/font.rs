//! Fixed-cell bitmap fonts and the rasterization of a single glyph.
use vstd::prelude::*;

use crate::geometry::Size;

verus! {

/// Whether bit `k` (counted from the least significant) of `b` is set.
pub open spec fn byte_bit(b: u8, k: u8) -> bool {
    (b >> k) & 1u8 == 1u8
}

/// A monospaced bitmap font.
///
/// The glyphs are stored one bit per pixel, most significant bit first, in an
/// image `image_width` pixels wide whose rows follow each other without
/// padding. Glyph `g` occupies the cell in column `g % n` and row `g / n` of
/// that image, where `n` is the number of cells that fit in one image row.
/// Characters from `first_char` on map to consecutive glyphs, `glyph_count` of
/// them; every other character maps to the glyph `replacement_glyph`.
#[derive(Copy, Clone, PartialEq, Eq, PartialOrd, Ord, Hash, Debug)]
pub struct MonoFont<'a> {
    /// The glyph image.
    pub image: &'a [u8],
    /// The width of the glyph image in pixels.
    pub image_width: u32,
    /// The size of one glyph cell.
    pub character_size: Size,
    /// The horizontal gap between two glyph cells.
    pub character_spacing: u32,
    /// The distance from the top of a cell to the alphabetic baseline, if the
    /// font states one.
    pub baseline: Option<i32>,
    /// The distance from the top of a cell to the top of the underline.
    pub underline_offset: i32,
    /// The height of the underline.
    pub underline_height: u32,
    /// The distance from the top of a cell to the top of the strikethrough.
    pub strikethrough_offset: i32,
    /// The height of the strikethrough.
    pub strikethrough_height: u32,
    /// The code point of the character drawn by glyph 0.
    pub first_char: u32,
    /// The number of glyphs for consecutive characters from `first_char` on.
    pub glyph_count: u32,
    /// The glyph drawn for a character that the font does not hold.
    pub replacement_glyph: u32,
}

impl<'a> MonoFont<'a> {
    /// Cells are not empty and at least one cell fits in an image row.
    pub open spec fn wf(self) -> bool {
        &&& self.character_size.width > 0
        &&& self.character_size.height > 0
        &&& self.image_width >= self.character_size.width
    }

    /// The glyph drawn for character `c`.
    pub open spec fn glyph_index(self, c: char) -> int {
        let code = c as int;
        if self.first_char <= code && code < self.first_char + self.glyph_count {
            code - self.first_char
        } else {
            self.replacement_glyph as int
        }
    }

    /// The number of glyph cells in one row of the image.
    pub open spec fn cells_per_row(self) -> int {
        self.image_width as int / self.character_size.width as int
    }

    /// The position in the image, in bits, of pixel `(x, y)` of glyph `g`.
    pub open spec fn bit_index(self, g: int, x: int, y: int) -> int {
        let n = self.cells_per_row();
        let gx = (g % n) * self.character_size.width as int + x;
        let gy = (g / n) * self.character_size.height as int + y;
        gy * self.image_width as int + gx
    }

    /// Whether pixel `(x, y)` of glyph `g` is on; a pixel beyond the end of
    /// the image is off.
    pub open spec fn pixel_on(self, g: int, x: int, y: int) -> bool {
        let bit = self.bit_index(g, x, y);
        &&& bit < self.image@.len() * 8
        &&& byte_bit(self.image@[bit / 8], (7 - bit % 8) as u8)
    }

    /// The number of pixels in one glyph cell.
    pub open spec fn cell_area(self) -> nat {
        (self.character_size.width * self.character_size.height) as nat
    }

    /// The pixels of the glyph for `c`, row by row: `true` where it is on.
    pub open spec fn glyph_samples(self, c: char) -> Seq<bool> {
        let w = self.character_size.width as int;
        Seq::new(
            self.cell_area(),
            |i: int| self.pixel_on(self.glyph_index(c), i % w, i / w),
        )
    }

    /// Returns the glyph drawn for character `c`.
    pub fn glyph_offset(&self, c: char) -> (r: u32)
        ensures
            r as int == self.glyph_index(c),
    {
        let code = c as u32;
        if self.first_char <= code && code - self.first_char < self.glyph_count {
            code - self.first_char
        } else {
            self.replacement_glyph
        }
    }

    /// Returns whether pixel `(x, y)` of glyph `g` is on.
    pub fn glyph_pixel(&self, g: u32, x: u32, y: u32) -> (r: bool)
        requires
            self.wf(),
            x < self.character_size.width,
            y < self.character_size.height,
        ensures
            r == self.pixel_on(g as int, x as int, y as int),
    {
        let w = self.character_size.width;
        let h = self.character_size.height;
        let iw = self.image_width;
        let n: u32 = iw / w;
        assert(n >= 1) by (nonlinear_arith)
            requires
                n == iw / w,
                iw >= w,
                w > 0,
        ;
        let col: u32 = g % n;
        let row: u32 = g / n;
        assert(col as int * w as int <= u32::MAX as int * u32::MAX as int) by (nonlinear_arith)
            requires
                col <= u32::MAX,
                w <= u32::MAX,
        ;
        assert(row as int * h as int <= u32::MAX as int * u32::MAX as int) by (nonlinear_arith)
            requires
                row <= u32::MAX,
                h <= u32::MAX,
        ;
        let gx: u128 = col as u128 * w as u128 + x as u128;
        let gy: u128 = row as u128 * h as u128 + y as u128;
        assert(gy as int * iw as int <= 0x1_0000_0001_0000_0000 * u32::MAX as int)
            by (nonlinear_arith)
            requires
                gy <= 0x1_0000_0001_0000_0000,
                iw <= u32::MAX,
        ;
        let bit: u128 = gy * iw as u128 + gx;
        if bit < self.image.len() as u128 * 8 {
            let byte: u8 = self.image[(bit / 8) as usize];
            let k: u8 = (7 - bit % 8) as u8;
            (byte >> k) & 1u8 == 1u8
        } else {
            false
        }
    }

    /// Rasterizes the glyph for `c`: one sample per pixel of the cell, row by
    /// row, `true` where the glyph is on. A character that the font does not
    /// hold gives the replacement glyph.
    pub fn raster(&self, c: char) -> (r: Vec<bool>)
        requires
            self.wf(),
        ensures
            r@ == self.glyph_samples(c),
    {
        let g = self.glyph_offset(c);
        let w: u64 = self.character_size.width as u64;
        let h: u64 = self.character_size.height as u64;
        assert(w * h <= u32::MAX as int * u32::MAX as int) by (nonlinear_arith)
            requires
                w <= u32::MAX,
                h <= u32::MAX,
        ;
        let n: u64 = w * h;
        let mut out: Vec<bool> = Vec::new();
        let mut i: u64 = 0;
        while i < n
            invariant
                self.wf(),
                g as int == self.glyph_index(c),
                w == self.character_size.width,
                h == self.character_size.height,
                n == self.cell_area(),
                i <= n,
                out@.len() == i,
                forall|j: int|
                    0 <= j < i ==> out@[j] == self.pixel_on(g as int, j % (w as int), j / (w as int)),
            decreases n - i,
        {
            let x: u64 = i % w;
            let y: u64 = i / w;
            assert(y < h) by (nonlinear_arith)
                requires
                    y == i / w,
                    i < n,
                    n == w * h,
                    w > 0,
            ;
            let on = self.glyph_pixel(g, x as u32, y as u32);
            out.push(on);
            i = i + 1;
        }
        assert(out@ =~= self.glyph_samples(c));
        out
    }
}

} // verus!
