use vstd::prelude::*;
use vstd::string::StringExecFns;
use vstd::arithmetic::div_mod::lemma_fundamental_div_mod_converse;
use vstd::arithmetic::mul::lemma_mul_inequality;
use crate::color::{Color, ppm_triple};
use crate::text::{append_decimal, decimal};

verus! {

/// A rendered image: its size and its pixels in raster order (rows from the
/// top, each row from left to right).
pub struct Image {
    width: u32,
    height: u32,
    pixels: Vec<Color>,
}

/// What an image holds, as mathematical values.
pub struct ImageView {
    pub width: nat,
    pub height: nat,
    pub pixels: Seq<Color>,
}

impl View for Image {
    type V = ImageView;

    closed spec fn view(&self) -> ImageView {
        ImageView { width: self.width as nat, height: self.height as nat, pixels: self.pixels@ }
    }
}

/// The header of a plain (ASCII) PPM file of the given size.
pub open spec fn ppm_header(width: nat, height: nat) -> Seq<char> {
    seq!['P', '3', '\n'] + decimal(width) + seq![' '] + decimal(height) + seq![' ', '\n', '2', '5', '5', '\n']
}

/// The body of a plain PPM file: one `"r g b\n"` line per pixel, in order.
pub open spec fn ppm_body(px: Seq<Color>) -> Seq<char>
    decreases px.len(),
{
    if px.len() == 0 {
        Seq::empty()
    } else {
        ppm_body(px.drop_last()) + ppm_triple(px.last())
    }
}

/// The channel bytes of a pixel sequence, four per pixel in the order red,
/// green, blue, alpha.
pub open spec fn rgba_bytes(px: Seq<Color>) -> Seq<u8>
    decreases px.len(),
{
    if px.len() == 0 {
        Seq::empty()
    } else {
        rgba_bytes(px.drop_last()) + seq![px.last().0, px.last().1, px.last().2, px.last().3]
    }
}

/// The image-plane coordinates `(i, j)` of the `k`-th pixel in raster order:
/// rows run from the top (`j == height - 1`) down, each from `i == 0` right.
pub open spec fn raster_coord(k: int, width: int, height: int) -> (int, int) {
    (k % width, height - 1 - k / width)
}

/// Every pixel of the image has its place in the raster order: pixel
/// `(i, j)` comes at position `(height - 1 - j) * width + i`.
pub proof fn lemma_raster_covers(width: int, height: int, i: int, j: int)
    requires
        0 <= i < width,
        0 <= j < height,
    ensures
        0 <= (height - 1 - j) * width + i < width * height,
        raster_coord((height - 1 - j) * width + i, width, height) == (i, j),
{
    let row = height - 1 - j;
    lemma_fundamental_div_mod_converse(row * width + i, width, row, i);
    assert(0 <= row * width) by (nonlinear_arith)
        requires
            row >= 0,
            width > 0,
    ;
    assert(row * width + i < width * height) by (nonlinear_arith)
        requires
            0 <= row < height,
            0 <= i < width,
    ;
}

/// The coordinates of every pixel of a `width` by `height` image, in the
/// order in which the renderer emits them.
pub fn raster_order(width: u32, height: u32) -> (r: Vec<(u32, u32)>)
    requires
        width as int * height as int <= usize::MAX,
    ensures
        r@.len() == width as int * height as int,
        forall|k: int|
            0 <= k < r@.len() ==> (#[trigger] r@[k]).0 as int == raster_coord(k, width as int, height as int).0
                && r@[k].1 as int == raster_coord(k, width as int, height as int).1,
{
    let mut r: Vec<(u32, u32)> = Vec::new();
    let mut row: u32 = 0;
    while row < height
        invariant
            row <= height,
            width as int * height as int <= usize::MAX,
            r@.len() == row as int * width as int,
            forall|k: int|
                0 <= k < r@.len() ==> (#[trigger] r@[k]).0 as int == raster_coord(k, width as int, height as int).0
                    && r@[k].1 as int == raster_coord(k, width as int, height as int).1,
        decreases height - row,
    {
        let j: u32 = height - 1 - row;
        let mut i: u32 = 0;
        while i < width
            invariant
                row < height,
                i <= width,
                j == height - 1 - row,
                width as int * height as int <= usize::MAX,
                r@.len() == row as int * width as int + i,
                forall|k: int|
                    0 <= k < r@.len() ==> (#[trigger] r@[k]).0 as int == raster_coord(k, width as int, height as int).0
                        && r@[k].1 as int == raster_coord(k, width as int, height as int).1,
            decreases width - i,
        {
            proof {
                let k = row as int * width as int + i as int;
                lemma_fundamental_div_mod_converse(k, width as int, row as int, i as int);
                lemma_mul_inequality(row as int + 1, height as int, width as int);
                assert((row as int + 1) * width as int == row as int * width as int + width as int) by (nonlinear_arith);
                assert(width as int * height as int == height as int * width as int) by (nonlinear_arith);
            }
            r.push((i, j));
            i = i + 1;
        }
        proof {
            assert((row as int + 1) * width as int == row as int * width as int + width as int) by (nonlinear_arith);
        }
        row = row + 1;
    }
    proof {
        assert(width as int * height as int == height as int * width as int) by (nonlinear_arith);
    }
    r
}

impl Image {
    /// An image of the given size over the given pixels.
    pub fn from_colors(width: u32, height: u32, colors: Vec<Color>) -> (img: Self)
        ensures
            img@.width == width,
            img@.height == height,
            img@.pixels == colors@,
    {
        Self { width, height, pixels: colors }
    }

    /// Width in pixels.
    pub fn width(&self) -> (w: u32)
        ensures
            w == self@.width,
    {
        self.width
    }

    /// Height in pixels.
    pub fn height(&self) -> (h: u32)
        ensures
            h == self@.height,
    {
        self.height
    }

    /// The pixels in raster order.
    pub fn pixels(&self) -> (px: &Vec<Color>)
        ensures
            px@ == self@.pixels,
    {
        &self.pixels
    }

    /// The whole image as the text of a plain PPM file: the `P3` header with
    /// the size and the maximum value 255, then one `"r g b\n"` line per
    /// pixel.
    pub fn to_ppm(&self) -> (s: String)
        ensures
            s@ == ppm_header(self@.width, self@.height) + ppm_body(self@.pixels),
    {
        let mut s = String::new();
        s.append("P3\n");
        append_decimal(&mut s, self.width as u64);
        s.append(" ");
        append_decimal(&mut s, self.height as u64);
        s.append(" \n255\n");
        proof {
            reveal_strlit("P3\n");
            reveal_strlit(" ");
            reveal_strlit(" \n255\n");
            assert(s@ =~= ppm_header(self@.width, self@.height));
            assert(self.pixels@.subrange(0, 0) =~= Seq::<Color>::empty());
        }
        let mut i: usize = 0;
        while i < self.pixels.len()
            invariant
                i <= self.pixels@.len(),
                s@ == ppm_header(self@.width, self@.height) + ppm_body(self.pixels@.subrange(0, i as int)),
            decreases self.pixels@.len() - i,
        {
            let line = self.pixels[i].to_string();
            s.append(line.as_str());
            proof {
                let next = self.pixels@.subrange(0, i as int + 1);
                assert(next.drop_last() =~= self.pixels@.subrange(0, i as int));
            }
            i = i + 1;
        }
        proof {
            assert(self.pixels@.subrange(0, self.pixels@.len() as int) =~= self.pixels@);
        }
        s
    }

    /// The channel bytes of all pixels, four per pixel (red, green, blue,
    /// alpha), in raster order: the layout of an RGBA frame buffer.
    pub fn frame_bytes(&self) -> (b: Vec<u8>)
        requires
            4 * self@.pixels.len() <= usize::MAX,
        ensures
            b@ == rgba_bytes(self@.pixels),
    {
        let mut b: Vec<u8> = Vec::new();
        proof {
            assert(self.pixels@.subrange(0, 0) =~= Seq::<Color>::empty());
        }
        let mut i: usize = 0;
        while i < self.pixels.len()
            invariant
                i <= self.pixels@.len(),
                b@ == rgba_bytes(self.pixels@.subrange(0, i as int)),
            decreases self.pixels@.len() - i,
        {
            let c = self.pixels[i];
            b.push(c.0);
            b.push(c.1);
            b.push(c.2);
            b.push(c.3);
            proof {
                let next = self.pixels@.subrange(0, i as int + 1);
                assert(next.drop_last() =~= self.pixels@.subrange(0, i as int));
                assert(b@ =~= rgba_bytes(next));
            }
            i = i + 1;
        }
        proof {
            assert(self.pixels@.subrange(0, self.pixels@.len() as int) =~= self.pixels@);
        }
        b
    }
}

} // verus!
