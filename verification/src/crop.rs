//! Cropping the white border of an image: the box around all pixels that
//! are not white.

use vstd::prelude::*;

verus! {

/// A rectangle of pixels.
#[derive(Debug, Clone, Copy, PartialEq, Eq)]
pub struct CropBox {
    pub x: u32,
    pub y: u32,
    pub width: u32,
    pub height: u32,
}

/// An image of three bytes per pixel, red, green and blue, row by row.
pub struct RgbPixels {
    width: u32,
    height: u32,
    data: Vec<u8>,
}

/// Lower limit of a channel of a white pixel.
pub const WHITE: u8 = 250;

impl RgbPixels {
    pub closed spec fn width(&self) -> nat {
        self.width as nat
    }

    pub closed spec fn height(&self) -> nat {
        self.height as nat
    }

    /// The bytes of the image.
    pub closed spec fn bytes(&self) -> Seq<u8> {
        self.data@
    }

    /// The image holds three bytes for each of its pixels.
    #[verifier::type_invariant]
    spec fn wf(&self) -> bool {
        self.data@.len() == 3 * (self.width * self.height)
    }

    /// Position of the first byte of the pixel in column `x` of row `y`.
    pub open spec fn offset(&self, x: int, y: int) -> int {
        3 * (y * self.width() + x)
    }

    /// Whether `x`, `y` is a pixel of the image.
    pub open spec fn holds(&self, x: int, y: int) -> bool {
        0 <= x < self.width() && 0 <= y < self.height()
    }

    /// Whether the pixel in column `x` of row `y` is not white: one of its
    /// channels is below the limit.
    pub open spec fn dark(&self, x: int, y: int) -> bool {
        &&& self.holds(x, y)
        &&& (self.bytes()[self.offset(x, y)] < WHITE || self.bytes()[self.offset(x, y) + 1]
            < WHITE || self.bytes()[self.offset(x, y) + 2] < WHITE)
    }

    /// Whether column `x` holds a pixel that is not white.
    pub open spec fn dark_column(&self, x: int) -> bool {
        exists|y: int| self.dark(x, y)
    }

    /// Whether row `y` holds a pixel that is not white.
    pub open spec fn dark_row(&self, y: int) -> bool {
        exists|x: int| self.dark(x, y)
    }

    /// Whether the box is the smallest one around all pixels that are not
    /// white.
    pub open spec fn bounded_by(&self, b: CropBox) -> bool {
        &&& b.width >= 1 && b.height >= 1
        &&& forall|x: int, y: int| #[trigger]
            self.dark(x, y) ==> b.x <= x < b.x + b.width && b.y <= y < b.y + b.height
        &&& self.dark_column(b.x as int)
        &&& self.dark_column(b.x + b.width - 1)
        &&& self.dark_row(b.y as int)
        &&& self.dark_row(b.y + b.height - 1)
    }

    /// The pixels that are not white span more than one column and more
    /// than one row.
    pub open spec fn croppable(&self) -> bool {
        &&& exists|x1: int, x2: int| x1 != x2 && self.dark_column(x1) && self.dark_column(x2)
        &&& exists|y1: int, y2: int| y1 != y2 && self.dark_row(y1) && self.dark_row(y2)
    }

    /// An image of the given size over the given bytes, if there are three
    /// bytes for each pixel.
    pub fn new(width: u32, height: u32, data: Vec<u8>) -> (r: Option<Self>)
        ensures
            r is Some == (data@.len() == 3 * (width * height)),
            r matches Some(img) ==> img.width() == width && img.height() == height && img.bytes()
                == data@,
    {
        assert(width * height <= 0xffff_ffff * 0xffff_ffff) by (nonlinear_arith)
            requires
                width <= 0xffff_ffff,
                height <= 0xffff_ffff,
        ;
        let pixels: u128 = (width as u128) * (height as u128);
        if data.len() as u128 == 3 * pixels {
            Some(RgbPixels { width, height, data })
        } else {
            None
        }
    }

    fn is_dark(&self, x: u32, y: u32) -> (r: bool)
        requires
            self.holds(x as int, y as int),
        ensures
            r == self.dark(x as int, y as int),
    {
        let len = self.data.len();
        proof {
            use_type_invariant(self);
            let (xi, yi) = (x as int, y as int);
            let (wi, hi) = (self.width as int, self.height as int);
            assert(0 <= yi * wi && yi * wi + xi < wi * hi) by (nonlinear_arith)
                requires
                    0 <= xi < wi,
                    0 <= yi < hi,
            ;
            assert(self.data@.len() == 3 * (wi * hi));
            assert(len == 3 * (wi * hi));
        }
        let at: usize = 3 * (y as usize * self.width as usize + x as usize);
        self.data[at] < WHITE || self.data[at + 1] < WHITE || self.data[at + 2] < WHITE
    }

    /// The box to crop the image to, so that its white border goes: the
    /// smallest box around all pixels that are not white. There is none
    /// where those pixels do not span more than one column and more than
    /// one row; the image then stays as it is.
    pub fn auto_crop_white(&self) -> (r: Option<CropBox>)
        ensures
            r is Some == self.croppable(),
            r matches Some(b) ==> self.bounded_by(b) && b.width >= 2 && b.height >= 2,
    {
        let w = self.width;
        let h = self.height;
        let mut min_x: u32 = w;
        let mut min_y: u32 = h;
        let mut max_x: u32 = 0;
        let mut max_y: u32 = 0;
        let mut found = false;
        let mut y: u32 = 0;
        while y < h
            invariant
                w == self.width,
                h == self.height,
                y <= h,
                !found ==> min_x == w && min_y == h && max_x == 0 && max_y == 0,
                !found ==> forall|px: int, py: int| py < y ==> !self.dark(px, py),
                found ==> self.rows_bounded(y as int, 0, min_x, min_y, max_x, max_y),
            decreases h - y,
        {
            let mut x: u32 = 0;
            while x < w
                invariant
                    w == self.width,
                    h == self.height,
                    y < h,
                    x <= w,
                    !found ==> min_x == w && min_y == h && max_x == 0 && max_y == 0,
                    !found ==> forall|px: int, py: int|
                        py < y || (py == y && px < x) ==> !self.dark(px, py),
                    found ==> self.rows_bounded(y as int, x as int, min_x, min_y, max_x, max_y),
                decreases w - x,
            {
                if self.is_dark(x, y) {
                    if x < min_x {
                        min_x = x;
                    }
                    if y < min_y {
                        min_y = y;
                    }
                    if x > max_x {
                        max_x = x;
                    }
                    if y > max_y {
                        max_y = y;
                    }
                    found = true;
                }
                x += 1;
            }
            y += 1;
        }
        if max_x <= min_x || max_y <= min_y {
            proof {
                if self.croppable() {
                    let (x1, x2) = choose|x1: int, x2: int|
                        x1 != x2 && self.dark_column(x1) && self.dark_column(x2);
                    let (y1, y2) = choose|y1: int, y2: int|
                        y1 != y2 && self.dark_row(y1) && self.dark_row(y2);
                    let ya = choose|ya: int| self.dark(x1, ya);
                    let yb = choose|yb: int| self.dark(x2, yb);
                    let xa = choose|xa: int| self.dark(xa, y1);
                    let xb = choose|xb: int| self.dark(xb, y2);
                    assert(found);
                }
            }
            return None;
        }
        let b = CropBox { x: min_x, y: min_y, width: max_x - min_x + 1, height: max_y - min_y + 1 };
        proof {
            assert(found);
            assert(self.dark_column(min_x as int) && self.dark_column(max_x as int));
            assert(self.dark_row(min_y as int) && self.dark_row(max_y as int));
            assert(min_x != max_x && min_y != max_y);
        }
        Some(b)
    }

    /// The bounds so far: every pixel before column `x` of row `y`, row by
    /// row, that is not white lies within them, and each of them is met
    /// by such a pixel.
    spec fn rows_bounded(
        &self,
        y: int,
        x: int,
        min_x: u32,
        min_y: u32,
        max_x: u32,
        max_y: u32,
    ) -> bool {
        &&& min_x <= max_x < self.width()
        &&& min_y <= max_y < self.height()
        &&& forall|px: int, py: int|
            (py < y || (py == y && px < x)) && #[trigger] self.dark(px, py) ==> min_x <= px
                <= max_x && min_y <= py <= max_y
        &&& self.dark_column(min_x as int)
        &&& self.dark_column(max_x as int)
        &&& self.dark_row(min_y as int)
        &&& self.dark_row(max_y as int)
    }
}

} // verus!
