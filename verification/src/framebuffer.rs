use vstd::prelude::*;

use crate::geometry::{Point, Rectangle};

verus! {

/// Whether `m` is a pixel mask and `s` the offset of a pixel slot in a byte:
/// 1, 2, 4 or 8 bits, aligned to their width.
pub open spec fn slot_config(m: u8, s: u8) -> bool {
    ||| (m == 1 && s < 8)
    ||| (m == 3 && (s == 0 || s == 2 || s == 4 || s == 6))
    ||| (m == 15 && (s == 0 || s == 4))
    ||| (m == 255 && s == 0)
}

/// The bits of a byte in the slot at `s`.
pub open spec fn get_bits(b: u8, m: u8, s: u8) -> u8 {
    (b >> s) & m
}

/// A byte with the slot at `s` overwritten by `c`.
pub open spec fn set_bits(b: u8, m: u8, s: u8, c: u8) -> u8 {
    (b & !(m << s)) | (c << s)
}

/// Writing a slot makes it read back what was written.
pub proof fn lemma_set_bits_same(b: u8, m: u8, s: u8, c: u8)
    requires
        slot_config(m, s),
        c <= m,
    ensures
        get_bits(set_bits(b, m, s, c), m, s) == c,
{
    assert(((((b & !(m << s)) | (c << s)) >> s) & m) == c) by (bit_vector)
        requires
            (m == 1 && s < 8) || (m == 3 && (s == 0 || s == 2 || s == 4 || s == 6)) || (m == 15
                && (s == 0 || s == 4)) || (m == 255 && s == 0),
            c <= m,
    ;
}

/// Writing a slot leaves the other slots of the byte as they were.
pub proof fn lemma_set_bits_other(b: u8, m: u8, s: u8, s2: u8, c: u8)
    requires
        slot_config(m, s),
        slot_config(m, s2),
        s != s2,
        c <= m,
    ensures
        get_bits(set_bits(b, m, s, c), m, s2) == get_bits(b, m, s2),
{
    assert(((((b & !(m << s)) | (c << s)) >> s2) & m) == ((b >> s2) & m)) by (bit_vector)
        requires
            (m == 1 && s < 8) || (m == 3 && (s == 0 || s == 2 || s == 4 || s == 6)) || (m == 15
                && (s == 0 || s == 4)) || (m == 255 && s == 0),
            (m == 1 && s2 < 8) || (m == 3 && (s2 == 0 || s2 == 2 || s2 == 4 || s2 == 6)) || (m
                == 15 && (s2 == 0 || s2 == 4)) || (m == 255 && s2 == 0),
            s != s2,
            c <= m,
    ;
}

/// What a slot reads is within the mask.
pub proof fn lemma_get_bits_bound(b: u8, m: u8, s: u8)
    ensures
        get_bits(b, m, s) <= m,
{
    assert(((b >> s) & m) <= m) by (bit_vector);
}


/// `v` clamped into `[0, hi]`.
pub open spec fn clamp(v: int, hi: int) -> int {
    if v < 0 {
        0
    } else if v > hi {
        hi
    } else {
        v
    }
}

/// `v` clamped into `[0, hi]`.
pub fn clamp_exec(v: i32, hi: i32) -> (r: usize)
    requires
        hi >= 0,
    ensures
        r == clamp(v as int, hi as int),
{
    let lo = if v < 0 {
        0
    } else {
        v
    };
    let c = if lo > hi {
        hi
    } else {
        lo
    };
    c as usize
}

/// Whether a number of bits per pixel is one the framebuffer packs.
pub open spec fn valid_bpp(bpp: int) -> bool {
    bpp == 1 || bpp == 2 || bpp == 4 || bpp == 8
}

/// The mask of one pixel's bits.
pub open spec fn spec_mask(bpp: int) -> u8 {
    if bpp == 1 {
        1
    } else if bpp == 2 {
        3
    } else if bpp == 4 {
        15
    } else {
        255
    }
}

/// The number of pixels in a byte.
pub open spec fn spec_ppb(bpp: int) -> int {
    8int / bpp
}

/// The pixels of a byte fill it exactly.
pub proof fn lemma_ppb(bpp: int)
    requires
        valid_bpp(bpp),
    ensures
        spec_ppb(bpp) >= 1,
        spec_ppb(bpp) * bpp == 8,
{
    if bpp == 1 {
        assert(8int / 1 == 8);
    } else if bpp == 2 {
        assert(8int / 2 == 4);
    } else if bpp == 4 {
        assert(8int / 4 == 2);
    } else {
        assert(8int / 8 == 1);
    }
}

/// The bits per pixel that a color of `color_bits` bits is packed into:
/// the least of 1, 2, 4 and 8 that holds it.
pub open spec fn spec_bits_per_pixel(color_bits: u32) -> int {
    if color_bits > 4 {
        8
    } else if color_bits > 2 {
        4
    } else if color_bits > 1 {
        2
    } else {
        1
    }
}

/// The bits per pixel that a color of `color_bits` bits is packed into.
pub fn bits_per_pixel(color_bits: u32) -> (bpp: usize)
    ensures
        bpp == spec_bits_per_pixel(color_bits),
        valid_bpp(bpp as int),
{
    if color_bits > 4 {
        8
    } else if color_bits > 2 {
        4
    } else if color_bits > 1 {
        2
    } else {
        1
    }
}

/// The number of bytes a packed buffer of `width` by `height` pixels of
/// `color_bits`-bit colors takes.
pub fn buffer_size(width: u32, height: u32, color_bits: u32) -> (n: usize)
    requires
        width * height <= usize::MAX,
    ensures
        n == (width * height) / spec_ppb(spec_bits_per_pixel(color_bits)),
{
    let bpp = bits_per_pixel(color_bits);
    let wh = width as usize * height as usize;
    wh / (8 / bpp)
}

/// A pixel to draw: where, and its color bits.
#[derive(Copy, Clone, Debug, PartialEq, Eq, Structural)]
pub struct Pixel {
    pub point: Point,
    pub color: u8,
}

/// A framebuffer that packs 1, 2, 4 or 8 bits of color per pixel into
/// bytes, row after row, leftmost pixel in the lowest bits.
pub struct PackedFramebuffer {
    buf: Vec<u8>,
    width: usize,
    height: usize,
    bpp: usize,
}

impl PackedFramebuffer {
    /// The bytes of the buffer.
    pub closed spec fn buffer(&self) -> Seq<u8> {
        self.buf@
    }

    /// The width in pixels.
    pub closed spec fn spec_width(&self) -> int {
        self.width as int
    }

    /// The height in pixels.
    pub closed spec fn spec_height(&self) -> int {
        self.height as int
    }

    /// The bits per pixel.
    pub closed spec fn spec_bpp(&self) -> int {
        self.bpp as int
    }

    /// The mask of one pixel's bits.
    pub open spec fn mask(&self) -> u8 {
        spec_mask(self.spec_bpp())
    }

    /// The pixels in a byte.
    pub open spec fn ppb(&self) -> int {
        spec_ppb(self.spec_bpp())
    }

    /// The bytes of a row: the width divided by the pixels in a byte, rounded down.
    pub open spec fn bpr(&self) -> int {
        self.spec_width() / self.ppb()
    }

    /// The byte that holds pixel `(x, y)`.
    pub open spec fn loc_byte(&self, x: int, y: int) -> int {
        y * self.bpr() + x / self.ppb()
    }

    /// The offset within its byte of the bits of pixel column `x`.
    pub open spec fn loc_shift(&self, x: int) -> int {
        self.spec_bpp() * (x % self.ppb())
    }

    /// Whether the buffer holds every pixel, with the sizes within `i32`.
    pub open spec fn covers(&self) -> bool {
        &&& valid_bpp(self.spec_bpp())
        &&& self.spec_width() <= i32::MAX
        &&& self.spec_height() <= i32::MAX
        &&& (self.spec_width() == 0 || self.spec_height() == 0 || (self.spec_height() - 1)
            * self.bpr() + (self.spec_width() - 1) / self.ppb() < self.buffer().len())
    }

    /// Whether `(x, y)` is a pixel of the framebuffer.
    pub open spec fn in_bounds(&self, x: int, y: int) -> bool {
        0 <= x < self.spec_width() && 0 <= y < self.spec_height()
    }

    /// The color bits at a place of a buffer laid out like this one.
    pub open spec fn field(&self, buf: Seq<u8>, byte: int, shift: int) -> u8 {
        get_bits(buf[byte], self.mask(), shift as u8)
    }

    /// The color bits of pixel `(x, y)` in a buffer laid out like this one.
    pub open spec fn pixel_in(&self, buf: Seq<u8>, x: int, y: int) -> u8 {
        self.field(buf, self.loc_byte(x, y), self.loc_shift(x))
    }

    /// The color bits of pixel `(x, y)`.
    pub open spec fn pixel(&self, x: int, y: int) -> u8 {
        self.pixel_in(self.buffer(), x, y)
    }

    /// A buffer laid out like this one with the bits of pixel `(x, y)` set to `c`.
    pub open spec fn with_pixel(&self, buf: Seq<u8>, x: int, y: int, c: u8) -> Seq<u8> {
        let b = self.loc_byte(x, y);
        buf.update(b, set_bits(buf[b], self.mask(), self.loc_shift(x) as u8, c))
    }

    /// A framebuffer over `buf` of `width` by `height` pixels of colors of
    /// `color_bits` bits.
    /// Where whole rows fill whole bytes and the buffer has the size that
    /// `buffer_size` gives, it holds every pixel.
    pub fn new(buf: Vec<u8>, width: usize, height: usize, color_bits: u32) -> (fb: Self)
        ensures
            fb.buffer() == buf@,
            fb.spec_width() == width,
            fb.spec_height() == height,
            fb.spec_bpp() == spec_bits_per_pixel(color_bits),
            width <= i32::MAX && height <= i32::MAX && (width as int) % spec_ppb(spec_bits_per_pixel(color_bits))
                == 0 && buf@.len() >= (width * height) / spec_ppb(spec_bits_per_pixel(color_bits))
                ==> fb.covers(),
    {
        let fb = PackedFramebuffer { buf, width, height, bpp: bits_per_pixel(color_bits) };
        proof {
            if width <= i32::MAX && height <= i32::MAX && (width as int) % fb.ppb() == 0 && fb.buffer().len()
                >= (width * height) / fb.ppb() {
                fb.lemma_sized_covers();
            }
        }
        fb
    }

    /// A buffer of `width * height / ppb` bytes holds every pixel when whole
    /// rows fill whole bytes.
    pub proof fn lemma_sized_covers(&self)
        requires
            valid_bpp(self.spec_bpp()),
            self.spec_width() <= i32::MAX,
            self.spec_height() <= i32::MAX,
            self.spec_width() % self.ppb() == 0,
            self.buffer().len() >= (self.spec_width() * self.spec_height()) / self.ppb(),
        ensures
            self.covers(),
    {
        let w = self.spec_width();
        let h = self.spec_height();
        let ppb = self.ppb();
        let bpr = self.bpr();
        lemma_ppb(self.spec_bpp());
        if w > 0 && h > 0 {
            vstd::arithmetic::div_mod::lemma_fundamental_div_mod(w, ppb);
            assert(w == ppb * bpr);
            assert(bpr >= 1) by (nonlinear_arith)
                requires
                    w == ppb * bpr,
                    w > 0,
                    ppb >= 1,
            ;
            assert(w - 1 == (bpr - 1) * ppb + (ppb - 1)) by (nonlinear_arith)
                requires
                    w == ppb * bpr,
            ;
            vstd::arithmetic::div_mod::lemma_fundamental_div_mod_converse(w - 1, ppb, bpr - 1, ppb - 1);
            assert(w * h == ppb * (bpr * h)) by (nonlinear_arith)
                requires
                    w == ppb * bpr,
            ;
            vstd::arithmetic::div_mod::lemma_div_multiples_vanish(bpr * h, ppb);
            assert((h - 1) * bpr + (bpr - 1) == bpr * h - 1) by (nonlinear_arith);
        }
    }

    /// Whether the buffer holds every pixel, with the sizes within `i32`.
    pub fn is_covering(&self) -> (b: bool)
        ensures
            b == self.covers(),
    {
        if !(self.bpp == 1 || self.bpp == 2 || self.bpp == 4 || self.bpp == 8) {
            return false;
        }
        if self.width > 0x7fff_ffff || self.height > 0x7fff_ffff {
            return false;
        }
        if self.width == 0 || self.height == 0 {
            return true;
        }
        let ppb = 8 / self.bpp;
        let bpr = self.width / ppb;
        let last_col = (self.width - 1) / ppb;
        let rows = self.height - 1;
        proof {
            assert(rows * bpr <= 0x7fff_ffffnat * 0x7fff_ffffnat) by (nonlinear_arith)
                requires
                    rows <= 0x7fff_ffff,
                    bpr <= 0x7fff_ffff,
            ;
        }
        let n = rows as u128 * bpr as u128 + last_col as u128;
        n < self.buf.len() as u128
    }

    /// The buffer, handed back.
    pub fn into_buffer(self) -> (buf: Vec<u8>)
        ensures
            buf@ == self.buffer(),
    {
        self.buf
    }

    /// The width in pixels.
    pub fn width(&self) -> (w: usize)
        ensures
            w == self.spec_width(),
    {
        self.width
    }

    /// The height in pixels.
    pub fn height(&self) -> (h: usize)
        ensures
            h == self.spec_height(),
    {
        self.height
    }

    /// The box of the framebuffer: from the origin, its width and height.
    pub fn bounding_box(&self) -> (r: Rectangle)
        requires
            self.covers(),
        ensures
            r.top_left == (Point { x: 0, y: 0 }),
            r.size.width == self.spec_width(),
            r.size.height == self.spec_height(),
    {
        Rectangle::new(
            Point { x: 0, y: 0 },
            crate::geometry::Size { width: self.width as u32, height: self.height as u32 },
        )
    }

    /// The pixels in a byte.
    fn pixels_per_byte(&self) -> (n: usize)
        requires
            valid_bpp(self.spec_bpp()),
        ensures
            n == self.ppb(),
            1 <= n <= 8,
    {
        8 / self.bpp
    }

    /// The mask of one pixel's bits.
    fn pixel_mask(&self) -> (m: u8)
        requires
            valid_bpp(self.spec_bpp()),
        ensures
            m == self.mask(),
    {
        if self.bpp == 1 {
            1
        } else if self.bpp == 2 {
            3
        } else if self.bpp == 4 {
            15
        } else {
            255
        }
    }

    /// The bytes of a row.
    pub fn bytes_per_row(&self) -> (n: usize)
        requires
            valid_bpp(self.spec_bpp()),
        ensures
            n == self.bpr(),
    {
        self.width / self.pixels_per_byte()
    }

    /// The offset of the first byte of row `y`.
    pub fn y_offset(&self, y: usize) -> (o: usize)
        requires
            self.covers(),
            y < self.spec_height(),
        ensures
            o == y * self.bpr(),
    {
        let bpr = self.bytes_per_row();
        if bpr == 0 {
            assert(y * bpr == 0);
            return 0;
        }
        proof {
            assert(self.spec_width() > 0) by (nonlinear_arith)
                requires
                    bpr == self.spec_width() / self.ppb(),
                    self.ppb() >= 1,
                    bpr != 0,
                    self.spec_width() >= 0,
            ;
            self.lemma_loc_in_buffer(0, y as int);
        }
        let _len = self.buf.len();
        y * bpr
    }

    /// The byte within its row of pixel column `x`.
    pub fn x_offset(&self, x: usize) -> (o: usize)
        requires
            valid_bpp(self.spec_bpp()),
        ensures
            o == (x as int) / self.ppb(),
    {
        x / self.pixels_per_byte()
    }

    /// The offset within its byte of the bits of pixel column `x`.
    pub fn x_bits_offset(&self, x: usize) -> (o: usize)
        requires
            valid_bpp(self.spec_bpp()),
        ensures
            o == self.loc_shift(x as int),
            slot_config(self.mask(), o as u8),
            o < 8,
    {
        let ppb = self.pixels_per_byte();
        proof {
            self.lemma_slot(x as int);
        }
        self.bpp * (x % ppb)
    }

    /// The slot of a pixel column is a slot of the byte.
    pub proof fn lemma_slot(&self, x: int)
        requires
            valid_bpp(self.spec_bpp()),
            x >= 0,
        ensures
            slot_config(self.mask(), self.loc_shift(x) as u8),
            0 <= self.loc_shift(x) < 8,
    {
        let k = x % self.ppb();
        assert(0 <= k < self.ppb());
        if self.spec_bpp() == 1 {
        } else if self.spec_bpp() == 2 {
            assert(k == 0 || k == 1 || k == 2 || k == 3);
        } else if self.spec_bpp() == 4 {
            assert(k == 0 || k == 1);
        } else {
            assert(k == 0);
        }
    }

    /// The byte of every pixel lies within the buffer.
    pub proof fn lemma_loc_in_buffer(&self, x: int, y: int)
        requires
            self.covers(),
            0 <= x < self.spec_width(),
            0 <= y < self.spec_height(),
        ensures
            0 <= self.loc_byte(x, y) < self.buffer().len(),
            y * self.bpr() <= (self.spec_height() - 1) * self.bpr(),
    {
        let bpr = self.bpr();
        let ppb = self.ppb();
        let h = self.spec_height();
        let w = self.spec_width();
        assert(bpr >= 0 && ppb >= 1);
        assert(y * bpr <= (h - 1) * bpr) by (nonlinear_arith)
            requires
                0 <= y <= h - 1,
                bpr >= 0,
        ;
        assert(0 <= y * bpr) by (nonlinear_arith)
            requires
                0 <= y,
                bpr >= 0,
        ;
        assert(x / ppb <= (w - 1) / ppb) by (nonlinear_arith)
            requires
                0 <= x <= w - 1,
                ppb >= 1,
        ;
        assert(0 <= x / ppb) by (nonlinear_arith)
            requires
                0 <= x,
                ppb >= 1,
        ;
    }

    /// The color bits at a place.
    fn get(&self, byte_offset: usize, bits_offset: usize) -> (c: u8)
        requires
            valid_bpp(self.spec_bpp()),
            byte_offset < self.buffer().len(),
            slot_config(self.mask(), bits_offset as u8),
            bits_offset < 8,
        ensures
            c == self.field(self.buffer(), byte_offset as int, bits_offset as int),
            c <= self.mask(),
    {
        let m = self.pixel_mask();
        proof {
            lemma_get_bits_bound(self.buf@[byte_offset as int], m, bits_offset as u8);
        }
        (self.buf[byte_offset] >> (bits_offset as u8)) & m
    }

    /// Sets the color bits at a place.
    fn set(&mut self, byte_offset: usize, bits_offset: usize, color: u8)
        requires
            valid_bpp(old(self).spec_bpp()),
            byte_offset < old(self).buffer().len(),
            slot_config(old(self).mask(), bits_offset as u8),
            bits_offset < 8,
            color <= old(self).mask(),
        ensures
            final(self).buffer() == old(self).buffer().update(
                byte_offset as int,
                set_bits(old(self).buffer()[byte_offset as int], old(self).mask(), bits_offset as u8, color),
            ),
            final(self).spec_width() == old(self).spec_width(),
            final(self).spec_height() == old(self).spec_height(),
            final(self).spec_bpp() == old(self).spec_bpp(),
            get_bits(final(self).buffer()[byte_offset as int], old(self).mask(), bits_offset as u8) == color,
            forall|s2: u8|
                #![trigger get_bits(final(self).buffer()[byte_offset as int], old(self).mask(), s2)]
                slot_config(old(self).mask(), s2) && s2 != bits_offset as u8 ==> get_bits(
                    final(self).buffer()[byte_offset as int],
                    old(self).mask(),
                    s2,
                ) == get_bits(old(self).buffer()[byte_offset as int], old(self).mask(), s2),
    {
        proof {
            let ob = self.buf@[byte_offset as int];
            lemma_set_bits_same(ob, self.mask(), bits_offset as u8, color);
            assert forall|s2: u8| slot_config(self.mask(), s2) && s2 != bits_offset as u8 implies get_bits(
                set_bits(ob, self.mask(), bits_offset as u8, color),
                self.mask(),
                s2,
            ) == get_bits(ob, self.mask(), s2) by {
                lemma_set_bits_other(ob, self.mask(), bits_offset as u8, s2, color);
            }
        }
        let m = self.pixel_mask();
        let b = self.buf[byte_offset];
        let s = bits_offset as u8;
        let nb = (b & !(m << s)) | (color << s);
        self.buf.set(byte_offset, nb);
    }

    /// The color bits of pixel `(x, y)`.
    pub fn get_pixel(&self, x: usize, y: usize) -> (c: u8)
        requires
            self.covers(),
            self.in_bounds(x as int, y as int),
        ensures
            c == self.pixel(x as int, y as int),
            c <= self.mask(),
    {
        proof {
            self.lemma_loc_in_buffer(x as int, y as int);
        }
        let _len = self.buf.len();
        let b = self.y_offset(y) + self.x_offset(x);
        let s = self.x_bits_offset(x);
        self.get(b, s)
    }

    /// Writing a pixel makes every pixel at the same place read what was
    /// written, and leaves every other pixel as it was.
    pub proof fn lemma_with_pixel(&self, buf: Seq<u8>, x: int, y: int, c: u8, x2: int, y2: int)
        requires
            self.covers(),
            buf.len() == self.buffer().len(),
            self.in_bounds(x, y),
            self.in_bounds(x2, y2),
            c <= self.mask(),
        ensures
            self.pixel_in(self.with_pixel(buf, x, y, c), x2, y2) == if self.loc_byte(x, y)
                == self.loc_byte(x2, y2) && self.loc_shift(x) == self.loc_shift(x2) {
                c
            } else {
                self.pixel_in(buf, x2, y2)
            },
            self.with_pixel(buf, x, y, c).len() == buf.len(),
    {
        self.lemma_loc_in_buffer(x, y);
        self.lemma_loc_in_buffer(x2, y2);
        self.lemma_slot(x);
        self.lemma_slot(x2);
        let b = self.loc_byte(x, y);
        let b2 = self.loc_byte(x2, y2);
        let s1 = self.loc_shift(x) as u8;
        let s2 = self.loc_shift(x2) as u8;
        if b == b2 {
            if s1 == s2 {
                lemma_set_bits_same(buf[b], self.mask(), s1, c);
            } else {
                lemma_set_bits_other(buf[b], self.mask(), s1, s2, c);
            }
        }
    }

    /// Law: writing a pixel changes only its own byte, and in that byte only
    /// its own bits, which then read the color; the pixels sharing the byte
    /// keep theirs.
    pub proof fn law_write_pixel_bytes(&self, buf: Seq<u8>, x: int, y: int, c: u8, i: int, s2: u8)
        requires
            self.covers(),
            buf.len() == self.buffer().len(),
            self.in_bounds(x, y),
            c <= self.mask(),
            0 <= i < buf.len(),
            slot_config(self.mask(), s2),
        ensures
            i != self.loc_byte(x, y) ==> self.with_pixel(buf, x, y, c)[i] == buf[i],
            get_bits(self.with_pixel(buf, x, y, c)[self.loc_byte(x, y)], self.mask(), self.loc_shift(x) as u8)
                == c,
            s2 != self.loc_shift(x) as u8 ==> get_bits(
                self.with_pixel(buf, x, y, c)[self.loc_byte(x, y)],
                self.mask(),
                s2,
            ) == get_bits(buf[self.loc_byte(x, y)], self.mask(), s2),
    {
        self.lemma_loc_in_buffer(x, y);
        self.lemma_slot(x);
        let b = self.loc_byte(x, y);
        let s = self.loc_shift(x) as u8;
        lemma_set_bits_same(buf[b], self.mask(), s, c);
        if s2 != s {
            lemma_set_bits_other(buf[b], self.mask(), s, s2, c);
        }
    }

    /// Two pixels share a place only where they are the same pixel, when the
    /// rows fill whole bytes.
    pub proof fn lemma_loc_injective(&self, x: int, y: int, x2: int, y2: int)
        requires
            self.covers(),
            self.spec_width() % self.ppb() == 0,
            self.in_bounds(x, y),
            self.in_bounds(x2, y2),
            self.loc_byte(x, y) == self.loc_byte(x2, y2),
            self.loc_shift(x) == self.loc_shift(x2),
        ensures
            x == x2 && y == y2,
    {
        let ppb = self.ppb();
        let bpr = self.bpr();
        let bpp = self.spec_bpp();
        let w = self.spec_width();
        lemma_ppb(bpp);
        assert(w == bpr * ppb) by (nonlinear_arith)
            requires
                w % ppb == 0,
                bpr == w / ppb,
                ppb >= 1,
        ;
        assert(x / ppb < bpr && x2 / ppb < bpr) by (nonlinear_arith)
            requires
                0 <= x < w,
                0 <= x2 < w,
                w == bpr * ppb,
                ppb >= 1,
        ;
        assert(y == y2) by (nonlinear_arith)
            requires
                y * bpr + x / ppb == y2 * bpr + x2 / ppb,
                0 <= x / ppb < bpr,
                0 <= x2 / ppb < bpr,
                0 <= y,
                0 <= y2,
        ;
        assert(x % ppb == x2 % ppb) by (nonlinear_arith)
            requires
                bpp * (x % ppb) == bpp * (x2 % ppb),
                bpp >= 1,
        ;
        assert(x == x2) by (nonlinear_arith)
            requires
                x / ppb == x2 / ppb,
                x % ppb == x2 % ppb,
                ppb >= 1,
        {
            vstd::arithmetic::div_mod::lemma_fundamental_div_mod(x, ppb);
            vstd::arithmetic::div_mod::lemma_fundamental_div_mod(x2, ppb);
        }
    }

    /// A buffer after drawing `pixels` in order, those outside the framebuffer skipped.
    pub open spec fn draw_spec(&self, buf: Seq<u8>, pixels: Seq<Pixel>) -> Seq<u8>
        decreases pixels.len(),
    {
        if pixels.len() == 0 {
            buf
        } else {
            let b = self.draw_spec(buf, pixels.drop_last());
            let p = pixels.last();
            if self.in_bounds(p.point.x as int, p.point.y as int) {
                self.with_pixel(b, p.point.x as int, p.point.y as int, p.color)
            } else {
                b
            }
        }
    }

    /// Whether every color of a run of pixels fits in a pixel's bits.
    pub open spec fn colors_fit(&self, pixels: Seq<Pixel>) -> bool {
        forall|i: int| 0 <= i < pixels.len() ==> (#[trigger] pixels[i]).color <= self.mask()
    }

    /// Draws pixels in order; those outside the framebuffer are skipped.
    pub fn draw_iter(&mut self, pixels: &[Pixel])
        requires
            old(self).covers(),
            old(self).colors_fit(pixels@),
        ensures
            final(self).buffer() == old(self).draw_spec(old(self).buffer(), pixels@),
            final(self).spec_width() == old(self).spec_width(),
            final(self).spec_height() == old(self).spec_height(),
            final(self).spec_bpp() == old(self).spec_bpp(),
    {
        let w = self.width;
        let h = self.height;
        let mut i: usize = 0;
        while i < pixels.len()
            invariant
                self.covers(),
                self.spec_width() == old(self).spec_width(),
                self.spec_height() == old(self).spec_height(),
                self.spec_bpp() == old(self).spec_bpp(),
                self.buffer().len() == old(self).buffer().len(),
                w == self.spec_width(),
                h == self.spec_height(),
                old(self).colors_fit(pixels@),
                0 <= i <= pixels@.len(),
                self.buffer() == old(self).draw_spec(old(self).buffer(), pixels@.subrange(0, i as int)),
            decreases pixels@.len() - i,
        {
            let p = pixels[i];
            let ghost prefix = pixels@.subrange(0, i as int + 1);
            assert(prefix.drop_last() =~= pixels@.subrange(0, i as int));
            assert(prefix.last() == p);
            assert(p.color <= self.mask());
            if p.point.x >= 0 && (p.point.x as usize) < w && p.point.y >= 0 && (p.point.y as usize) < h {
                let x = p.point.x as usize;
                let y = p.point.y as usize;
                proof {
                    self.lemma_loc_in_buffer(x as int, y as int);
                }
                let _len = self.buf.len();
                let b = self.y_offset(y) + self.x_offset(x);
                let s = self.x_bits_offset(x);
                self.set(b, s, p.color);
            }
            i = i + 1;
        }
        assert(pixels@.subrange(0, pixels@.len() as int) =~= pixels@);
    }

    /// A buffer after setting pixels `x0 .. x1` of row `y` to `c`, left to right.
    pub open spec fn fill_row(&self, buf: Seq<u8>, y: int, x0: int, x1: int, c: u8) -> Seq<u8>
        decreases x1 - x0,
    {
        if x1 <= x0 {
            buf
        } else {
            self.with_pixel(self.fill_row(buf, y, x0, x1 - 1, c), x1 - 1, y, c)
        }
    }

    /// A buffer after setting the pixels of rows `y0 .. y1`, columns `x0 .. x1`, to `c`,
    /// row after row.
    pub open spec fn fill_rows(&self, buf: Seq<u8>, y0: int, y1: int, x0: int, x1: int, c: u8) -> Seq<u8>
        decreases y1 - y0,
    {
        if y1 <= y0 {
            buf
        } else {
            self.fill_row(self.fill_rows(buf, y0, y1 - 1, x0, x1, c), y1 - 1, x0, x1, c)
        }
    }

    /// A buffer after setting pixels `x0 .. x1` of row `y` to the colors of
    /// `colors` from index `j0` on, as far as they go.
    pub open spec fn fill_row_colors(
        &self,
        buf: Seq<u8>,
        y: int,
        x0: int,
        x1: int,
        colors: Seq<u8>,
        j0: int,
    ) -> Seq<u8>
        decreases x1 - x0,
    {
        if x1 <= x0 {
            buf
        } else {
            let b = self.fill_row_colors(buf, y, x0, x1 - 1, colors, j0);
            let k = j0 + (x1 - 1 - x0);
            if k < colors.len() {
                self.with_pixel(b, x1 - 1, y, colors[k])
            } else {
                b
            }
        }
    }

    /// A buffer after setting the pixels of rows `y0 .. y1`, columns `x0 .. x1`,
    /// row after row, to the colors of `colors` in turn, as far as they go.
    pub open spec fn fill_rows_colors(
        &self,
        buf: Seq<u8>,
        y0: int,
        y1: int,
        x0: int,
        x1: int,
        colors: Seq<u8>,
    ) -> Seq<u8>
        decreases y1 - y0,
    {
        if y1 <= y0 {
            buf
        } else {
            self.fill_row_colors(
                self.fill_rows_colors(buf, y0, y1 - 1, x0, x1, colors),
                y1 - 1,
                x0,
                x1,
                colors,
                (y1 - 1 - y0) * (if x1 > x0 { x1 - x0 } else { 0 }),
            )
        }
    }

    /// The columns `x0 .. x1` and rows `y0 .. y1` that an area is drawn to:
    /// its edges clamped to those of the framebuffer.
    pub open spec fn span(&self, area: Rectangle) -> (int, int, int, int) {
        let (w, h) = (self.spec_width(), self.spec_height());
        (
            clamp(area.top_left.x as int, w),
            clamp(area.top_left.x + (area.size.width as i32), w),
            clamp(area.top_left.y as int, h),
            clamp(area.top_left.y + (area.size.height as i32), h),
        )
    }

    /// Whether pixel `(x, y)` lies in an area.
    pub open spec fn in_area(area: Rectangle, x: int, y: int) -> bool {
        &&& area.top_left.x <= x < area.top_left.x + (area.size.width as i32)
        &&& area.top_left.y <= y < area.top_left.y + (area.size.height as i32)
    }

    /// Whether the far corner of an area stays within `i32`.
    pub open spec fn area_fits(area: Rectangle) -> bool {
        &&& i32::MIN <= area.top_left.x + (area.size.width as i32) <= i32::MAX
        &&& i32::MIN <= area.top_left.y + (area.size.height as i32) <= i32::MAX
    }

    /// The clamped columns and rows of an area.
    fn area_span(&self, area: &Rectangle) -> (r: (usize, usize, usize, usize))
        requires
            self.covers(),
            Self::area_fits(*area),
        ensures
            (r.0 as int, r.1 as int, r.2 as int, r.3 as int) == self.span(*area),
            r.1 <= self.spec_width(),
            r.3 <= self.spec_height(),
    {
        let cx = self.width as i32;
        let cy = self.height as i32;
        let ex = area.top_left.x + area.size.width as i32;
        let ey = area.top_left.y + area.size.height as i32;
        (
            clamp_exec(area.top_left.x, cx),
            clamp_exec(ex, cx),
            clamp_exec(area.top_left.y, cy),
            clamp_exec(ey, cy),
        )
    }

    /// Sets pixels `x0 .. x1` of every row `y0 .. y1` to `color`.
    fn fill_span(&mut self, x0: usize, x1: usize, y0: usize, y1: usize, color: u8)
        requires
            old(self).covers(),
            x1 <= old(self).spec_width(),
            y1 <= old(self).spec_height(),
            color <= old(self).mask(),
        ensures
            final(self).buffer() == old(self).fill_rows(
                old(self).buffer(),
                y0 as int,
                y1 as int,
                x0 as int,
                x1 as int,
                color,
            ),
            final(self).spec_width() == old(self).spec_width(),
            final(self).spec_height() == old(self).spec_height(),
            final(self).spec_bpp() == old(self).spec_bpp(),
    {
        let mut r = y0;
        if y1 < y0 {
            return;
        }
        while r < y1
            invariant
                self.covers(),
                self.spec_width() == old(self).spec_width(),
                self.spec_height() == old(self).spec_height(),
                self.spec_bpp() == old(self).spec_bpp(),
                self.buffer().len() == old(self).buffer().len(),
                y0 <= r <= y1,
                x1 <= self.spec_width(),
                y1 <= self.spec_height(),
                color <= self.mask(),
                self.buffer() == old(self).fill_rows(old(self).buffer(), y0 as int, r as int, x0 as int, x1 as int, color),
            decreases y1 - r,
        {
            let ghost row_start = self.buffer();
            let mut c = x0;
            if x0 < x1 {
                while c < x1
                    invariant
                        self.covers(),
                        self.spec_width() == old(self).spec_width(),
                        self.spec_height() == old(self).spec_height(),
                        self.spec_bpp() == old(self).spec_bpp(),
                        self.buffer().len() == old(self).buffer().len(),
                        y0 <= r < y1,
                        x0 <= c <= x1,
                        x1 <= self.spec_width(),
                        y1 <= self.spec_height(),
                        color <= self.mask(),
                        self.buffer() == old(self).fill_row(row_start, r as int, x0 as int, c as int, color),
                    decreases x1 - c,
                {
                    proof {
                        self.lemma_loc_in_buffer(c as int, r as int);
                    }
                    let _len = self.buf.len();
                    let b = self.y_offset(r) + self.x_offset(c);
                    let s = self.x_bits_offset(c);
                    self.set(b, s, color);
                    c = c + 1;
                }
            }
            r = r + 1;
        }
    }

    /// Fills an area with one color: every pixel of the area that lies in
    /// the framebuffer takes the color, and every other pixel keeps its own
    /// (when rows fill whole bytes; the bytes written are stated for any width).
    pub fn fill_solid(&mut self, area: &Rectangle, color: u8)
        requires
            old(self).covers(),
            old(self).bpr() > 0,
            Self::area_fits(*area),
            color <= old(self).mask(),
        ensures
            ({
                let (x0, x1, y0, y1) = old(self).span(*area);
                final(self).buffer() == old(self).fill_rows(old(self).buffer(), y0, y1, x0, x1, color)
            }),
            final(self).spec_width() == old(self).spec_width(),
            final(self).spec_height() == old(self).spec_height(),
            final(self).spec_bpp() == old(self).spec_bpp(),
            old(self).spec_width() % old(self).ppb() == 0 ==> forall|x: int, y: int|
                #![trigger final(self).pixel(x, y)]
                old(self).in_bounds(x, y) ==> final(self).pixel(x, y) == if Self::in_area(*area, x, y) {
                    color
                } else {
                    old(self).pixel(x, y)
                },
    {
        let ghost before = *self;
        let (x0, x1, y0, y1) = self.area_span(area);
        self.fill_span(x0, x1, y0, y1, color);
        proof {
            if before.spec_width() % before.ppb() == 0 {
                assert forall|x: int, y: int| #[trigger] before.in_bounds(x, y) implies self.pixel(x, y)
                    == if Self::in_area(*area, x, y) {
                    color
                } else {
                    before.pixel(x, y)
                } by {
                    before.law_fill_rows_pixels(
                        before.buffer(),
                        y0 as int,
                        y1 as int,
                        x0 as int,
                        x1 as int,
                        color,
                        x,
                        y,
                    );
                }
            }
        }
    }

    /// Fills an area with colors in turn, row after row, as far as they go.
    /// Only the part of the area within the framebuffer is visited, as for `fill_solid`.
    pub fn fill_contiguous(&mut self, area: &Rectangle, colors: &[u8])
        requires
            old(self).covers(),
            old(self).bpr() > 0,
            Self::area_fits(*area),
            forall|i: int| 0 <= i < colors@.len() ==> #[trigger] colors@[i] <= old(self).mask(),
        ensures
            ({
                let (x0, x1, y0, y1) = old(self).span(*area);
                final(self).buffer() == old(self).fill_rows_colors(
                    old(self).buffer(),
                    y0,
                    y1,
                    x0,
                    x1,
                    colors@,
                )
            }),
            final(self).spec_width() == old(self).spec_width(),
            final(self).spec_height() == old(self).spec_height(),
            final(self).spec_bpp() == old(self).spec_bpp(),
    {
        let (x0, x1, y0, y1) = self.area_span(area);
        let row_len: usize = if x1 > x0 {
            x1 - x0
        } else {
            0
        };
        let mut j: u64 = 0;
        let mut r = y0;
        if y1 < y0 {
            return;
        }
        while r < y1
            invariant
                self.covers(),
                self.spec_width() == old(self).spec_width(),
                self.spec_height() == old(self).spec_height(),
                self.spec_bpp() == old(self).spec_bpp(),
                self.buffer().len() == old(self).buffer().len(),
                y0 <= r <= y1,
                x1 <= self.spec_width(),
                y1 <= self.spec_height(),
                row_len == (if x1 > x0 { x1 - x0 } else { 0 }),
                j == (r - y0) * row_len,
                j <= self.spec_width() * self.spec_height(),
                self.spec_width() <= i32::MAX,
                self.spec_height() <= i32::MAX,
                forall|i: int| 0 <= i < colors@.len() ==> #[trigger] colors@[i] <= self.mask(),
                self.buffer() == old(self).fill_rows_colors(old(self).buffer(), y0 as int, r as int, x0 as int, x1 as int, colors@),
            decreases y1 - r,
        {
            let ghost row_start = self.buffer();
            let ghost j0 = j as int;
            proof {
                assert((r + 1 - y0) * row_len <= self.spec_width() * self.spec_height()) by (nonlinear_arith)
                    requires
                        r + 1 <= y1,
                        y1 <= self.spec_height(),
                        row_len <= self.spec_width(),
                        y0 <= r,
                ;
                assert((r + 1 - y0) * row_len == (r - y0) * row_len + row_len) by (nonlinear_arith);
                assert(self.spec_width() * self.spec_height() <= 0x7fff_ffff * 0x7fff_ffff) by (nonlinear_arith)
                    requires
                        0 <= self.spec_width() <= 0x7fff_ffff,
                        0 <= self.spec_height() <= 0x7fff_ffff,
                ;
            }
            let mut c = x0;
            if x0 < x1 {
                while c < x1
                    invariant
                        self.covers(),
                        self.spec_width() == old(self).spec_width(),
                        self.spec_height() == old(self).spec_height(),
                        self.spec_bpp() == old(self).spec_bpp(),
                        self.buffer().len() == old(self).buffer().len(),
                        y0 <= r < y1,
                        x0 <= c <= x1,
                        x1 <= self.spec_width(),
                        y1 <= self.spec_height(),
                        j == j0 + (c - x0),
                        j0 == (r - y0) * row_len,
                        row_len == x1 - x0,
                        j0 + row_len <= self.spec_width() * self.spec_height(),
                        self.spec_width() * self.spec_height() <= 0x7fff_ffff * 0x7fff_ffff,
                        forall|i: int| 0 <= i < colors@.len() ==> #[trigger] colors@[i] <= self.mask(),
                        self.buffer() == old(self).fill_row_colors(row_start, r as int, x0 as int, c as int, colors@, j0),
                    decreases x1 - c,
                {
                    if j < colors.len() as u64 {
                        proof {
                            self.lemma_loc_in_buffer(c as int, r as int);
                        }
                        let _len = self.buf.len();
                        let b = self.y_offset(r) + self.x_offset(c);
                        let s = self.x_bits_offset(c);
                        self.set(b, s, colors[j as usize]);
                    }
                    j = j + 1;
                    c = c + 1;
                }
            }
            proof {
                assert((r + 1 - y0) * row_len == (r - y0) * row_len + row_len) by (nonlinear_arith);
                assert((r + 1 - y0) * row_len <= self.spec_width() * self.spec_height()) by (nonlinear_arith)
                    requires
                        r + 1 <= y1,
                        y1 <= self.spec_height(),
                        row_len <= self.spec_width(),
                        y0 <= r,
                ;
            }
            if x0 >= x1 {
                assert(self.buffer() =~= old(self).fill_row_colors(row_start, r as int, x0 as int, x1 as int, colors@, j0));
            }
            r = r + 1;
        }
    }

    /// Clears the framebuffer to one color. Black (all bits clear) clears
    /// every byte of the buffer; another color fills every pixel of the
    /// framebuffer like `fill_solid`.
    pub fn clear(&mut self, color: u8)
        requires
            old(self).covers(),
            color != 0 ==> old(self).bpr() > 0,
            color <= old(self).mask(),
        ensures
            color == 0 ==> final(self).buffer() == Seq::new(old(self).buffer().len(), |i: int| 0u8),
            color != 0 ==> final(self).buffer() == old(self).fill_rows(
                old(self).buffer(),
                0,
                old(self).spec_height(),
                0,
                old(self).spec_width(),
                color,
            ),
            final(self).spec_width() == old(self).spec_width(),
            final(self).spec_height() == old(self).spec_height(),
            final(self).spec_bpp() == old(self).spec_bpp(),
            color == 0 || old(self).spec_width() % old(self).ppb() == 0 ==> forall|x: int, y: int|
                #![trigger final(self).pixel(x, y)]
                old(self).in_bounds(x, y) ==> final(self).pixel(x, y) == color,
    {
        if color == 0 {
            let n = self.buf.len();
            let mut i: usize = 0;
            while i < n
                invariant
                    n == self.buffer().len(),
                    n == old(self).buffer().len(),
                    self.spec_width() == old(self).spec_width(),
                    self.spec_height() == old(self).spec_height(),
                    self.spec_bpp() == old(self).spec_bpp(),
                    0 <= i <= n,
                    forall|k: int| 0 <= k < i ==> self.buffer()[k] == 0u8,
                decreases n - i,
            {
                self.buf.set(i, 0u8);
                i = i + 1;
            }
            assert(self.buffer() =~= Seq::new(old(self).buffer().len(), |i: int| 0u8));
            proof {
                assert(self.covers());
                assert forall|x: int, y: int| self.in_bounds(x, y) implies #[trigger] self.pixel(x, y) == color by {
                    self.law_cleared_is_black(x, y);
                }
            }
        } else {
            let bbox = self.bounding_box();
            proof {
                assert(self.span(bbox) == (0int, self.spec_width(), 0int, self.spec_height()));
            }
            let ghost before = *self;
            self.fill_solid(&bbox, color);
            proof {
                assert(bbox.size.width as i32 == before.spec_width());
                assert(bbox.size.height as i32 == before.spec_height());
                assert forall|x: int, y: int| #[trigger] before.in_bounds(x, y) implies Self::in_area(bbox, x, y) by {}
                if before.spec_width() % before.ppb() == 0 {
                    assert forall|x: int, y: int| before.in_bounds(x, y) implies #[trigger] self.pixel(x, y) == color by {
                        assert(before.in_bounds(x, y));
                        assert(Self::in_area(bbox, x, y));
                    }
                }
            }
        }
    }

    /// Whether `(x, y)` comes before `(x2, y2)` in row-major order.
    pub open spec fn before(x: int, y: int, x2: int, y2: int) -> bool {
        y < y2 || (y == y2 && x < x2)
    }

    /// Whether framebuffers have the same layout.
    pub open spec fn same_layout(&self, other: &Self) -> bool {
        &&& self.spec_width() == other.spec_width()
        &&& self.spec_height() == other.spec_height()
        &&& self.spec_bpp() == other.spec_bpp()
    }

    /// Brings this framebuffer up to date with `new`: every pixel that
    /// differs is copied, row after row, and the copied pixels are given
    /// back in that order, for drawing on the display.
    pub fn apply(&mut self, new: &Self) -> (changes: Vec<Pixel>)
        requires
            old(self).covers(),
            new.covers(),
            old(self).same_layout(new),
        ensures
            final(self).same_layout(&*old(self)),
            final(self).buffer().len() == old(self).buffer().len(),
            forall|x: int, y: int|
                #![trigger final(self).pixel(x, y)]
                final(self).in_bounds(x, y) ==> final(self).pixel(x, y) == new.pixel(x, y),
            forall|x: int, y: int|
                #![trigger final(self).pixel(x, y)]
                final(self).in_bounds(x, y) ==> final(self).pixel(x, y) == old(self).pixel(x, y)
                    || final(self).pixel(x, y) == new.pixel(x, y),
            forall|k: int|
                0 <= k < changes@.len() ==> {
                    let p = #[trigger] changes@[k];
                    &&& old(self).in_bounds(p.point.x as int, p.point.y as int)
                    &&& p.color == new.pixel(p.point.x as int, p.point.y as int)
                    &&& p.color != old(self).pixel(p.point.x as int, p.point.y as int)
                },
            forall|k1: int, k2: int|
                0 <= k1 < k2 < changes@.len() ==> Self::before(
                    (#[trigger] changes@[k1]).point.x as int,
                    changes@[k1].point.y as int,
                    (#[trigger] changes@[k2]).point.x as int,
                    changes@[k2].point.y as int,
                ),
            old(self).spec_width() % old(self).ppb() == 0 ==> forall|x: int, y: int|
                #![trigger old(self).pixel(x, y)]
                old(self).in_bounds(x, y) && old(self).pixel(x, y) != new.pixel(x, y) ==> exists|k: int|
                    0 <= k < changes@.len() && (#[trigger] changes@[k]).point.x == x
                        && changes@[k].point.y == y,
            changes@.len() == 0 ==> final(self).buffer() == old(self).buffer(),
            (forall|x: int, y: int|
                #![trigger old(self).pixel(x, y)]
                old(self).in_bounds(x, y) ==> old(self).pixel(x, y) == new.pixel(x, y)) ==> changes@.len()
                == 0,
    {
        let ghost old_fb = *old(self);
        let w = self.width;
        let h = self.height;
        let mut changes: Vec<Pixel> = Vec::new();
        let mut y: usize = 0;
        while y < h
            invariant
                self.covers(),
                self.same_layout(&old_fb),
                new.covers(),
                old_fb.same_layout(new),
                old_fb.covers(),
                self.buffer().len() == old_fb.buffer().len(),
                changes@.len() == 0 ==> self.buffer() == old_fb.buffer(),
                w == self.spec_width(),
                h == self.spec_height(),
                0 <= y <= h,
                forall|x2: int, y2: int|
                    #![trigger self.pixel(x2, y2)]
                    self.in_bounds(x2, y2) && y2 < y ==> self.pixel(x2, y2) == new.pixel(x2, y2),
                forall|x2: int, y2: int|
                    #![trigger self.pixel(x2, y2)]
                    self.in_bounds(x2, y2) ==> self.pixel(x2, y2) == old_fb.pixel(x2, y2)
                        || self.pixel(x2, y2) == new.pixel(x2, y2),
                forall|k: int|
                    0 <= k < changes@.len() ==> {
                        let p = #[trigger] changes@[k];
                        &&& old_fb.in_bounds(p.point.x as int, p.point.y as int)
                        &&& p.point.y < y
                        &&& p.color == new.pixel(p.point.x as int, p.point.y as int)
                        &&& p.color != old_fb.pixel(p.point.x as int, p.point.y as int)
                    },
                forall|k1: int, k2: int|
                    0 <= k1 < k2 < changes@.len() ==> Self::before(
                        (#[trigger] changes@[k1]).point.x as int,
                        changes@[k1].point.y as int,
                        (#[trigger] changes@[k2]).point.x as int,
                        changes@[k2].point.y as int,
                    ),
                old_fb.spec_width() % old_fb.ppb() == 0 ==> forall|x2: int, y2: int|
                    #![trigger self.pixel(x2, y2)]
                    self.in_bounds(x2, y2) && y2 >= y ==> self.pixel(x2, y2) == old_fb.pixel(x2, y2),
                old_fb.spec_width() % old_fb.ppb() == 0 ==> forall|x2: int, y2: int|
                    #![trigger old_fb.pixel(x2, y2)]
                    old_fb.in_bounds(x2, y2) && y2 < y && old_fb.pixel(x2, y2) != new.pixel(x2, y2)
                        ==> exists|k: int|
                        0 <= k < changes@.len() && (#[trigger] changes@[k]).point.x == x2
                            && changes@[k].point.y == y2,
            decreases h - y,
        {
            let mut x: usize = 0;
            while x < w
                invariant
                    self.covers(),
                    self.same_layout(&old_fb),
                    new.covers(),
                    old_fb.same_layout(new),
                    old_fb.covers(),
                    self.buffer().len() == old_fb.buffer().len(),
                    changes@.len() == 0 ==> self.buffer() == old_fb.buffer(),
                    w == self.spec_width(),
                    h == self.spec_height(),
                    0 <= y < h,
                    0 <= x <= w,
                    forall|x2: int, y2: int|
                        #![trigger self.pixel(x2, y2)]
                        self.in_bounds(x2, y2) && Self::before(x2, y2, x as int, y as int) ==> self.pixel(x2, y2)
                            == new.pixel(x2, y2),
                    forall|x2: int, y2: int|
                        #![trigger self.pixel(x2, y2)]
                        self.in_bounds(x2, y2) ==> self.pixel(x2, y2) == old_fb.pixel(x2, y2)
                            || self.pixel(x2, y2) == new.pixel(x2, y2),
                    forall|k: int|
                        0 <= k < changes@.len() ==> {
                            let p = #[trigger] changes@[k];
                            &&& old_fb.in_bounds(p.point.x as int, p.point.y as int)
                            &&& Self::before(p.point.x as int, p.point.y as int, x as int, y as int)
                            &&& p.color == new.pixel(p.point.x as int, p.point.y as int)
                            &&& p.color != old_fb.pixel(p.point.x as int, p.point.y as int)
                        },
                    forall|k1: int, k2: int|
                        0 <= k1 < k2 < changes@.len() ==> Self::before(
                            (#[trigger] changes@[k1]).point.x as int,
                            changes@[k1].point.y as int,
                            (#[trigger] changes@[k2]).point.x as int,
                            changes@[k2].point.y as int,
                        ),
                    old_fb.spec_width() % old_fb.ppb() == 0 ==> forall|x2: int, y2: int|
                        #![trigger self.pixel(x2, y2)]
                        self.in_bounds(x2, y2) && !Self::before(x2, y2, x as int, y as int) ==> self.pixel(x2, y2)
                            == old_fb.pixel(x2, y2),
                    old_fb.spec_width() % old_fb.ppb() == 0 ==> forall|x2: int, y2: int|
                        #![trigger old_fb.pixel(x2, y2)]
                        old_fb.in_bounds(x2, y2) && Self::before(x2, y2, x as int, y as int)
                            && old_fb.pixel(x2, y2) != new.pixel(x2, y2) ==> exists|k: int|
                            0 <= k < changes@.len() && (#[trigger] changes@[k]).point.x == x2
                                && changes@[k].point.y == y2,
                decreases w - x,
            {
                proof {
                    self.lemma_loc_in_buffer(x as int, y as int);
                    new.lemma_loc_in_buffer(x as int, y as int);
                }
                let _len = self.buf.len();
                let b = self.y_offset(y) + self.x_offset(x);
                let s = self.x_bits_offset(x);
                let c = new.get(b, s);
                let cur = self.get(b, s);
                assert(c == new.pixel(x as int, y as int));
                assert(cur == self.pixel(x as int, y as int));
                if cur != c {
                    let ghost before_buf = self.buffer();
                    let ghost before_fb = *self;
                    self.set(b, s, c);
                    assert(self.buffer() == before_fb.with_pixel(before_buf, x as int, y as int, c));
                    proof {
                        assert forall|x2: int, y2: int| #[trigger] self.in_bounds(x2, y2) implies self.pixel(x2, y2)
                            == if before_fb.loc_byte(x as int, y as int) == before_fb.loc_byte(x2, y2)
                                && before_fb.loc_shift(x as int) == before_fb.loc_shift(x2) {
                                c
                            } else {
                                before_fb.pixel(x2, y2)
                            } by {
                            before_fb.lemma_with_pixel(before_buf, x as int, y as int, c, x2, y2);
                        }
                        assert forall|x2: int, y2: int|
                            self.in_bounds(x2, y2) && before_fb.loc_byte(x as int, y as int) == before_fb.loc_byte(x2, y2)
                                && before_fb.loc_shift(x as int) == before_fb.loc_shift(x2) implies #[trigger] new.pixel(x2, y2) == c by {
                        }
                        if old_fb.spec_width() % old_fb.ppb() == 0 {
                            assert forall|x2: int, y2: int|
                                self.in_bounds(x2, y2) && before_fb.loc_byte(x as int, y as int) == before_fb.loc_byte(x2, y2)
                                    && before_fb.loc_shift(x as int) == before_fb.loc_shift(x2) implies x2 == x && y2 == y by {
                                before_fb.lemma_loc_injective(x as int, y as int, x2, y2);
                            }
                        }
                    }
                    let ghost prev_changes = changes@;
                    changes.push(Pixel { point: Point { x: x as i32, y: y as i32 }, color: c });
                    proof {
                        let n = prev_changes.len();
                        assert(changes@[n as int].point.x == x);
                        assert(forall|k: int| 0 <= k < n ==> changes@[k] == prev_changes[k]);
                    }
                }
                x = x + 1;
            }
            y = y + 1;
        }
        proof {
            if changes@.len() > 0 {
                let p = changes@[0];
                assert(old_fb.pixel(p.point.x as int, p.point.y as int) != new.pixel(
                    p.point.x as int,
                    p.point.y as int,
                ));
            }
        }
        changes
    }
}


impl PackedFramebuffer {
    /// Filling a row keeps the length of the buffer.
    pub proof fn lemma_fill_row_len(&self, buf: Seq<u8>, y: int, x0: int, x1: int, c: u8)
        requires
            self.covers(),
            buf.len() == self.buffer().len(),
            c <= self.mask(),
            0 <= x0,
            x1 <= self.spec_width(),
            0 <= y < self.spec_height(),
        ensures
            self.fill_row(buf, y, x0, x1, c).len() == buf.len(),
        decreases x1 - x0,
    {
        if x1 > x0 {
            self.lemma_fill_row_len(buf, y, x0, x1 - 1, c);
            let b = self.fill_row(buf, y, x0, x1 - 1, c);
            self.lemma_with_pixel(b, x1 - 1, y, c, x1 - 1, y);
        }
    }

    /// The pixels of a buffer after filling part of a row, when rows fill whole bytes.
    pub proof fn lemma_fill_row_pixels(&self, buf: Seq<u8>, y: int, x0: int, x1: int, c: u8, px: int, py: int)
        requires
            self.covers(),
            self.spec_width() % self.ppb() == 0,
            buf.len() == self.buffer().len(),
            c <= self.mask(),
            0 <= x0,
            x1 <= self.spec_width(),
            0 <= y < self.spec_height(),
            self.in_bounds(px, py),
        ensures
            self.pixel_in(self.fill_row(buf, y, x0, x1, c), px, py) == if py == y && x0 <= px < x1 {
                c
            } else {
                self.pixel_in(buf, px, py)
            },
        decreases x1 - x0,
    {
        if x1 > x0 {
            self.lemma_fill_row_pixels(buf, y, x0, x1 - 1, c, px, py);
            self.lemma_fill_row_len(buf, y, x0, x1 - 1, c);
            let b = self.fill_row(buf, y, x0, x1 - 1, c);
            self.lemma_with_pixel(b, x1 - 1, y, c, px, py);
            if self.loc_byte(x1 - 1, y) == self.loc_byte(px, py) && self.loc_shift(x1 - 1) == self.loc_shift(px) {
                self.lemma_loc_injective(x1 - 1, y, px, py);
            }
        }
    }

    /// Filling rows keeps the length of the buffer.
    pub proof fn lemma_fill_rows_len(&self, buf: Seq<u8>, y0: int, y1: int, x0: int, x1: int, c: u8)
        requires
            self.covers(),
            buf.len() == self.buffer().len(),
            c <= self.mask(),
            0 <= x0,
            x1 <= self.spec_width(),
            0 <= y0,
            y1 <= self.spec_height(),
        ensures
            self.fill_rows(buf, y0, y1, x0, x1, c).len() == buf.len(),
        decreases y1 - y0,
    {
        if y1 > y0 {
            self.lemma_fill_rows_len(buf, y0, y1 - 1, x0, x1, c);
            self.lemma_fill_row_len(self.fill_rows(buf, y0, y1 - 1, x0, x1, c), y1 - 1, x0, x1, c);
        }
    }

    /// Law: when rows fill whole bytes, filling rows `y0 .. y1`, columns
    /// `x0 .. x1` with a color sets exactly those pixels to it.
    pub proof fn law_fill_rows_pixels(
        &self,
        buf: Seq<u8>,
        y0: int,
        y1: int,
        x0: int,
        x1: int,
        c: u8,
        px: int,
        py: int,
    )
        requires
            self.covers(),
            self.spec_width() % self.ppb() == 0,
            buf.len() == self.buffer().len(),
            c <= self.mask(),
            0 <= x0,
            x1 <= self.spec_width(),
            0 <= y0,
            y1 <= self.spec_height(),
            self.in_bounds(px, py),
        ensures
            self.pixel_in(self.fill_rows(buf, y0, y1, x0, x1, c), px, py) == if y0 <= py < y1 && x0
                <= px < x1 {
                c
            } else {
                self.pixel_in(buf, px, py)
            },
        decreases y1 - y0,
    {
        if y1 > y0 {
            self.law_fill_rows_pixels(buf, y0, y1 - 1, x0, x1, c, px, py);
            self.lemma_fill_rows_len(buf, y0, y1 - 1, x0, x1, c);
            self.lemma_fill_row_pixels(self.fill_rows(buf, y0, y1 - 1, x0, x1, c), y1 - 1, x0, x1, c, px, py);
        }
    }

    /// Law: when rows fill whole bytes, drawing one pixel inside the
    /// framebuffer sets it and leaves every other pixel as it was.
    pub proof fn law_draw_one_pixel(&self, p: Pixel, px: int, py: int)
        requires
            self.covers(),
            self.spec_width() % self.ppb() == 0,
            self.in_bounds(p.point.x as int, p.point.y as int),
            p.color <= self.mask(),
            self.in_bounds(px, py),
        ensures
            self.pixel_in(self.draw_spec(self.buffer(), seq![p]), px, py) == if px == p.point.x
                && py == p.point.y {
                p.color
            } else {
                self.pixel(px, py)
            },
    {
        let s = seq![p];
        assert(s.drop_last() =~= Seq::<Pixel>::empty());
        assert(self.draw_spec(self.buffer(), s.drop_last()) == self.buffer());
        let (x, y) = (p.point.x as int, p.point.y as int);
        self.lemma_with_pixel(self.buffer(), x, y, p.color, px, py);
        if self.loc_byte(x, y) == self.loc_byte(px, py) && self.loc_shift(x) == self.loc_shift(px) {
            self.lemma_loc_injective(x, y, px, py);
        }
    }

    /// Law: a buffer of zero bytes reads black (all bits clear) at every pixel.
    pub proof fn law_cleared_is_black(&self, px: int, py: int)
        requires
            self.covers(),
            self.in_bounds(px, py),
        ensures
            self.pixel_in(Seq::new(self.buffer().len(), |i: int| 0u8), px, py) == 0,
    {
        self.lemma_loc_in_buffer(px, py);
        let s = self.loc_shift(px) as u8;
        let m = self.mask();
        assert(((0u8 >> s) & m) == 0u8) by (bit_vector);
    }
}

} // verus!
