//! The logical framebuffer: a width x height grid of RGBA pixels, stored as
//! one byte row after another, four bytes per pixel. The user callback and
//! the drawing helpers mutate it; once per redraw tick its bytes are handed
//! to the presentation backend, whose GPU texture is sized to exactly
//! `width * height * 4` bytes.

use vstd::prelude::*;

verus! {

/// A pixel framebuffer of logical size `width` x `height`, RGBA8.
#[derive(Debug)]
pub struct Screen {
    /// Width in logical pixels.
    pub width: u32,
    /// Height in logical pixels.
    pub height: u32,
    /// The pixel bytes, `width * height * 4` of them: row-major, one
    /// `[r, g, b, a]` quadruple per pixel.
    pub data: Vec<u8>,
}

impl Screen {
    /// The buffer holds exactly four bytes per logical pixel.
    pub open spec fn wf(self) -> bool {
        self.data@.len() == self.width * self.height * 4
    }

    /// The byte offset of the pixel at `(x, y)`.
    pub open spec fn pixel_at(self, x: int, y: int) -> int {
        (y * self.width + x) * 4
    }

    /// The RGBA bytes of the pixel at `(x, y)`.
    pub open spec fn pixel(self, x: int, y: int) -> (u8, u8, u8, u8) {
        (
            self.data@[self.pixel_at(x, y)],
            self.data@[self.pixel_at(x, y) + 1],
            self.data@[self.pixel_at(x, y) + 2],
            self.data@[self.pixel_at(x, y) + 3],
        )
    }

    /// A new screen of the given logical size, every pixel opaque black.
    pub fn new(width: u32, height: u32) -> (r: Screen)
        requires
            width * height * 4 <= usize::MAX,
        ensures
            r.wf(),
            r.width == width,
            r.height == height,
            forall|x: int, y: int|
                0 <= x < width && 0 <= y < height ==> r.pixel(x, y) == (0u8, 0u8, 0u8, 255u8),
    {
        let mut data: Vec<u8> = Vec::new();
        let count = (width as usize) * (height as usize);
        proof {
            assert((width as int) * (height as int) * 4 >= (width as int) * (height as int))
                by (nonlinear_arith);
        }
        let mut i: usize = 0;
        while i < count
            invariant
                count == (width as int) * (height as int),
                count * 4 <= usize::MAX,
                i <= count,
                data@.len() == i * 4,
                forall|p: int| 0 <= p < i ==> #[trigger] black_pixel(data@, p),
            decreases count - i,
        {
            proof {
                assert((i + 1) * 4 <= count * 4) by (nonlinear_arith)
                    requires
                        i < count;
            }
            let ghost pre = data@;
            data.push(0);
            data.push(0);
            data.push(0);
            data.push(255);
            proof {
                let j = i as int;
                assert forall|p: int| 0 <= p < i + 1 implies #[trigger] black_pixel(
                    data@,
                    p,
                ) by {
                    if p < j {
                        assert(black_pixel(pre, p));
                        assert(p * 4 + 3 < j * 4);
                        assert(data@[p * 4] == pre[p * 4]);
                        assert(data@[p * 4 + 1] == pre[p * 4 + 1]);
                        assert(data@[p * 4 + 2] == pre[p * 4 + 2]);
                        assert(data@[p * 4 + 3] == pre[p * 4 + 3]);
                    } else {
                        assert(p * 4 == j * 4);
                        assert(data@[j * 4] == 0u8 && data@[j * 4 + 1] == 0u8 && data@[j * 4 + 2]
                            == 0u8 && data@[j * 4 + 3] == 255u8);
                    }
                }
            }
            i = i + 1;
        }
        let r = Screen { width, height, data };
        proof {
            assert(r.data@.len() == width * height * 4) by {
                assert(count * 4 == (width as int) * (height as int) * 4);
            }
            assert forall|x: int, y: int|
                0 <= x < width && 0 <= y < height implies r.pixel(x, y) == (
                0u8,
                0u8,
                0u8,
                255u8,
            ) by {
                let p = y * width + x;
                assert(0 <= p < count) by (nonlinear_arith)
                    requires
                        p == y * width + x,
                        0 <= x < width,
                        0 <= y < height,
                        count == (width as int) * (height as int);
                assert(black_pixel(r.data@, p));
                assert(r.pixel_at(x, y) == p * 4);
            }
        }
        r
    }

    /// Overwrite the pixel at `(x, y)` with the given RGBA bytes.
    pub fn set_pixel(&mut self, x: u32, y: u32, rgba: (u8, u8, u8, u8))
        requires
            old(self).wf(),
            x < old(self).width,
            y < old(self).height,
        ensures
            final(self).wf(),
            final(self).width == old(self).width,
            final(self).height == old(self).height,
            final(self).pixel(x as int, y as int) == rgba,
            forall|xx: int, yy: int|
                0 <= xx < old(self).width && 0 <= yy < old(self).height && !(xx == x && yy == y)
                    ==> final(self).pixel(xx, yy) == old(self).pixel(xx, yy),
    {
        let n: usize = self.data.len();
        proof {
            lemma_pixel_offset_in_range(
                self.width as int,
                self.height as int,
                x as int,
                y as int,
            );
            assert(((y as int) * (self.width as int) + (x as int)) * 4 + 4 <= n);
        }
        let base = ((y as usize) * (self.width as usize) + (x as usize)) * 4;
        let (r, g, b, a) = rgba;
        self.data[base] = r;
        self.data[base + 1] = g;
        self.data[base + 2] = b;
        self.data[base + 3] = a;
        proof {
            assert forall|xx: int, yy: int|
                0 <= xx < old(self).width && 0 <= yy < old(self).height && !(xx == x && yy == y)
                    implies self.pixel(xx, yy) == old(self).pixel(xx, yy) by {
                lemma_pixel_offset_in_range(
                    self.width as int,
                    self.height as int,
                    xx,
                    yy,
                );
                lemma_pixel_offsets_disjoint(
                    self.width as int,
                    xx,
                    yy,
                    x as int,
                    y as int,
                );
            }
        }
    }

    /// Read the pixel at `(x, y)`.
    pub fn get_pixel(&self, x: u32, y: u32) -> (r: (u8, u8, u8, u8))
        requires
            self.wf(),
            x < self.width,
            y < self.height,
        ensures
            r == self.pixel(x as int, y as int),
    {
        let n: usize = self.data.len();
        proof {
            lemma_pixel_offset_in_range(
                self.width as int,
                self.height as int,
                x as int,
                y as int,
            );
            assert(((y as int) * (self.width as int) + (x as int)) * 4 + 4 <= n);
        }
        let base = ((y as usize) * (self.width as usize) + (x as usize)) * 4;
        (self.data[base], self.data[base + 1], self.data[base + 2], self.data[base + 3])
    }
}

/// Pixel `p` of the byte buffer is opaque black.
spec fn black_pixel(data: Seq<u8>, p: int) -> bool {
    &&& data[p * 4] == 0u8
    &&& data[p * 4 + 1] == 0u8
    &&& data[p * 4 + 2] == 0u8
    &&& data[p * 4 + 3] == 255u8
}

/// The byte offset of a pixel inside the grid lies strictly inside the
/// buffer, with room for its four bytes.
pub proof fn lemma_pixel_offset_in_range(w: int, h: int, x: int, y: int) by (nonlinear_arith)
    requires
        0 <= x < w,
        0 <= y < h,
    ensures
        0 <= (y * w + x) * 4,
        (y * w + x) * 4 + 4 <= w * h * 4,
{
}

/// Two different pixels occupy disjoint byte ranges.
pub proof fn lemma_pixel_offsets_disjoint(w: int, x1: int, y1: int, x2: int, y2: int) by (nonlinear_arith)
    requires
        0 <= x1 < w,
        0 <= x2 < w,
        0 <= y1,
        0 <= y2,
        !(x1 == x2 && y1 == y2),
    ensures
        (y1 * w + x1) * 4 + 4 <= (y2 * w + x2) * 4 || (y2 * w + x2) * 4 + 4 <= (y1 * w + x1) * 4,
{
}

} // verus!
