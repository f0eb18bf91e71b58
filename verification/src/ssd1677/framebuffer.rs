//! Two-plane 4-gray framebuffer for the 480x800 (portrait) PaperMono display.
//!
//! Memory layout is the controller's RAM order so a whole plane can be sent
//! with one `0x24` / `0x26` write and data-entry mode `0x03` (X++, Y++):
//!
//! * RAM Y (gate, 0..480)   == logical **x** (portrait column)  -> row index
//! * RAM X (source, 0..800) == logical **y** (portrait row)     -> bit index,
//!   8 pixels per byte, MSB first.
//!
//! `byte = x * ROW_BYTES + y / 8`, `bit = 0x80 >> (y % 8)`.
//!
//! Each pixel stores a gray level `v` in 0..=3 (0 = black, 3 = white) split
//! into `lsb = v & 1` and `msb = v >> 1` planes.  The `msb` plane alone is a
//! monochrome image (white if v >= 2) and is what the monochrome refresh paths
//! send to the controller.

use crate::ssd1677::area::{clipped, Area};
use vstd::prelude::*;

verus! {

/// Portrait width (logical x).
pub const WIDTH: u32 = 480;

/// Portrait height (logical y).
pub const HEIGHT: u32 = 800;

/// Bytes per RAM row (800 source pixels / 8).
pub const ROW_BYTES: usize = 100;

/// Bytes per bit-plane.
pub const PLANE_BYTES: usize = 48_000;

/// Axis flips applied when mapping logical coordinates to controller RAM.
#[derive(Debug, Clone, Copy, PartialEq, Eq, Default)]
pub struct Orientation {
    pub flip_x: bool,
    pub flip_y: bool,
}

pub struct FrameBuffer {
    pub lsb: [u8; PLANE_BYTES],
    pub msb: [u8; PLANE_BYTES],
    pub orientation: Orientation,
}

impl Orientation {
    /// Byte of a plane that holds the pixel.
    pub open spec fn byte(self, x: int, y: int) -> int {
        self.col(x) * ROW_BYTES + self.row(y) / 8
    }

    /// Bit of that byte.
    pub open spec fn bit(self, y: int) -> u8 {
        0x80u8 >> ((self.row(y) % 8) as u8)
    }

    pub open spec fn col(self, x: int) -> int {
        if self.flip_x {
            WIDTH - 1 - x
        } else {
            x
        }
    }

    pub open spec fn row(self, y: int) -> int {
        if self.flip_y {
            HEIGHT - 1 - y
        } else {
            y
        }
    }

    /// The pixel has a place in the planes. Beyond the last row of a column
    /// the next column begins.
    pub open spec fn holds(self, x: int, y: int) -> bool {
        0 <= self.col(x) && 0 <= self.row(y) && self.byte(x, y) < PLANE_BYTES
    }
}

/// Is the pixel on the screen?
pub open spec fn on_screen(x: int, y: int) -> bool {
    0 <= x < WIDTH && 0 <= y < HEIGHT
}

/// The level that two plane bits make.
pub open spec fn level_of(low: u8, high: u8, bit: u8) -> u8 {
    (if low & bit != 0 {
        1u8
    } else {
        0u8
    }) | (if high & bit != 0 {
        2u8
    } else {
        0u8
    })
}

/// A plane byte with one bit set or cleared.
pub open spec fn with_bit(b: u8, bit: u8, on: bool) -> u8 {
    if on {
        b | bit
    } else {
        b & !bit
    }
}

/// Bytes `first..=last` of rows `y0..=y1` replaced by those of `src`.
pub open spec fn patched(
    plane: Seq<u8>,
    src: Seq<u8>,
    first: int,
    last: int,
    y0: int,
    y1: int,
) -> Seq<u8> {
    Seq::new(
        plane.len(),
        |i: int|
            if y0 <= i / (ROW_BYTES as int) <= y1 && first <= i % (ROW_BYTES as int) <= last {
                src[i]
            } else {
                plane[i]
            },
    )
}

/// The byte that holds bit column `x` rounded down.
pub open spec fn first_byte(x0: u16) -> int {
    x0 as int / 8
}

/// The byte that holds the last of `w` bit columns from `x0`, within a row.
pub open spec fn last_byte(x0: u16, w: u16) -> int {
    let end = (x0 + w - 1) / 8;
    if end < ROW_BYTES {
        end
    } else {
        ROW_BYTES - 1
    }
}

/// The last of `h` rows from `y0`, within the plane.
pub open spec fn last_row(y0: u16, h: u16) -> int {
    let end = y0 + h - 1;
    if end < WIDTH {
        end
    } else {
        WIDTH - 1
    }
}

/// A logical rectangle in native coordinates, cut to the screen: first bit
/// column, bit columns, first row, rows.
pub open spec fn native(x: u32, y: u32, w: u32, h: u32) -> (u16, u16, u16, u16) {
    let cx = if x < WIDTH {
        x as int
    } else {
        WIDTH - 1
    };
    let cy = if y < HEIGHT {
        y as int
    } else {
        HEIGHT - 1
    };
    let cw = if w < WIDTH - cx {
        w as int
    } else {
        WIDTH - cx
    };
    let ch = if h < HEIGHT - cy {
        h as int
    } else {
        HEIGHT - cy
    };
    (cy as u16, ch as u16, cx as u16, cw as u16)
}

/// One bit of a byte does not touch another.
proof fn bits_are_apart(b: u8, j: u8, k: u8, on: bool)
    requires
        j < 8,
        k < 8,
    ensures
        j != k ==> (with_bit(b, 0x80u8 >> j, on) & (0x80u8 >> k) != 0) == (b & (0x80u8 >> k) != 0),
        (with_bit(b, 0x80u8 >> j, on) & (0x80u8 >> j) != 0) == on,
{
    assert((j < 8 && k < 8 && j != k ==> ((b | (0x80u8 >> j)) & (0x80u8 >> k)) == b & (0x80u8 >> k)
        && ((b & !(0x80u8 >> j)) & (0x80u8 >> k)) == b & (0x80u8 >> k)) && (j < 8 ==> ((b | (0x80u8
        >> j)) & (0x80u8 >> j)) != 0 && ((b & !(0x80u8 >> j)) & (0x80u8 >> j)) == 0))
        by (bit_vector);
}

/// The two bits of a level, put back together.
proof fn level_bits(level: u8)
    ensures
        (if level & 1 != 0 {
            1u8
        } else {
            0u8
        }) | (if level & 2 != 0 {
            2u8
        } else {
            0u8
        }) == level & 3,
{
    assert((if level & 1 != 0 {
        1u8
    } else {
        0u8
    }) | (if level & 2 != 0 {
        2u8
    } else {
        0u8
    }) == level & 3) by (bit_vector);
}

/// Bit `k` of a byte, from the left.
pub open spec fn bit_on(b: u8, k: u8) -> bool {
    b & (0x80u8 >> k) != 0
}

/// Eight bits make a byte.
proof fn bits_make_bytes(b: u8, c: u8)
    requires
        forall|k: u8| k < 8 ==> #[trigger] bit_on(b, k) == bit_on(c, k),
    ensures
        b == c,
{
    assert(bit_on(b, 0) == bit_on(c, 0) && bit_on(b, 1) == bit_on(c, 1) && bit_on(b, 2) == bit_on(
        c,
        2,
    ) && bit_on(b, 3) == bit_on(c, 3) && bit_on(b, 4) == bit_on(c, 4) && bit_on(b, 5) == bit_on(
        c,
        5,
    ) && bit_on(b, 6) == bit_on(c, 6) && bit_on(b, 7) == bit_on(c, 7));
    assert((b & (0x80u8 >> 0u8) != 0) == (c & (0x80u8 >> 0u8) != 0) && (b & (0x80u8 >> 1u8) != 0)
        == (c & (0x80u8 >> 1u8) != 0) && (b & (0x80u8 >> 2u8) != 0) == (c & (0x80u8 >> 2u8) != 0)
        && (b & (0x80u8 >> 3u8) != 0) == (c & (0x80u8 >> 3u8) != 0) && (b & (0x80u8 >> 4u8) != 0)
        == (c & (0x80u8 >> 4u8) != 0) && (b & (0x80u8 >> 5u8) != 0) == (c & (0x80u8 >> 5u8) != 0)
        && (b & (0x80u8 >> 6u8) != 0) == (c & (0x80u8 >> 6u8) != 0) && (b & (0x80u8 >> 7u8) != 0)
        == (c & (0x80u8 >> 7u8) != 0) ==> b == c) by (bit_vector);
}

/// Equal levels have equal bits.
proof fn levels_have_bits(a: FrameBuffer, b: FrameBuffer, i: int, k: u8)
    requires
        a.orientation == b.orientation,
        forall|x: int, y: int| on_screen(x, y) ==> #[trigger] a.level(x, y) == b.level(x, y),
        0 <= i < PLANE_BYTES,
        k < 8,
    ensures
        bit_on(a.lsb@[i], k) == bit_on(b.lsb@[i], k),
        bit_on(a.msb@[i], k) == bit_on(b.msb@[i], k),
{
    let o = a.orientation;
    let col = i / (ROW_BYTES as int);
    let row = i % (ROW_BYTES as int) * 8 + k;
    // a flip undoes itself
    let x = o.col(col);
    let y = o.row(row);
    assert(on_screen(x, y) && o.col(x) == col && o.row(y) == row);
    assert(o.byte(x, y) == i && o.bit(y) == 0x80u8 >> k);
    assert(a.level(x, y) == b.level(x, y));
    crate::bits::two_bits_make_a_level();
}

/// The planes hold the picture and nothing else: two framebuffers of one
/// orientation that show the same levels have the same planes.
pub proof fn equal_levels_make_equal_planes(a: FrameBuffer, b: FrameBuffer)
    requires
        a.orientation == b.orientation,
        forall|x: int, y: int| on_screen(x, y) ==> #[trigger] a.level(x, y) == b.level(x, y),
    ensures
        a.lsb@ == b.lsb@,
        a.msb@ == b.msb@,
{
    assert forall|i: int| 0 <= i < PLANE_BYTES implies #[trigger] a.lsb@[i] == b.lsb@[i] by {
        assert forall|k: u8| k < 8 implies #[trigger] bit_on(a.lsb@[i], k) == bit_on(
            b.lsb@[i],
            k,
        ) by {
            levels_have_bits(a, b, i, k);
        }
        bits_make_bytes(a.lsb@[i], b.lsb@[i]);
    }
    assert forall|i: int| 0 <= i < PLANE_BYTES implies #[trigger] a.msb@[i] == b.msb@[i] by {
        assert forall|k: u8| k < 8 implies #[trigger] bit_on(a.msb@[i], k) == bit_on(
            b.msb@[i],
            k,
        ) by {
            levels_have_bits(a, b, i, k);
        }
        bits_make_bytes(a.msb@[i], b.msb@[i]);
    }
    assert(a.lsb@ =~= b.lsb@);
    assert(a.msb@ =~= b.msb@);
}

impl Default for FrameBuffer {
    fn default() -> (fb: Self)
        ensures
            fb.orientation == (Orientation { flip_x: false, flip_y: false }),
            forall|x: int, y: int| on_screen(x, y) ==> #[trigger] fb.level(x, y) == 3,
    {
        FrameBuffer::new()
    }
}

impl FrameBuffer {
    /// The gray level of a pixel.
    pub open spec fn level(&self, x: int, y: int) -> u8 {
        let i = self.orientation.byte(x, y);
        level_of(self.lsb@[i], self.msb@[i], self.orientation.bit(y))
    }

    /// All white.
    pub fn new() -> (fb: Self)
        ensures
            fb.orientation == (Orientation { flip_x: false, flip_y: false }),
            forall|i: int| 0 <= i < PLANE_BYTES ==> #[trigger] fb.lsb@[i] == 0xFF,
            forall|i: int| 0 <= i < PLANE_BYTES ==> #[trigger] fb.msb@[i] == 0xFF,
            forall|x: int, y: int| on_screen(x, y) ==> #[trigger] fb.level(x, y) == 3,
    {
        let fb = FrameBuffer {
            lsb: [0xFF; PLANE_BYTES],
            msb: [0xFF; PLANE_BYTES],
            orientation: Orientation { flip_x: false, flip_y: false },
        };
        proof {
            fb.uniform(0xFF, 0xFF);
            crate::bits::two_bits_make_a_level();
        }
        fb
    }

    /// Planes of equal bytes show one level.
    proof fn uniform(&self, low: u8, high: u8)
        requires
            low == 0 || low == 0xFF,
            high == 0 || high == 0xFF,
            forall|i: int| 0 <= i < PLANE_BYTES ==> #[trigger] self.lsb@[i] == low,
            forall|i: int| 0 <= i < PLANE_BYTES ==> #[trigger] self.msb@[i] == high,
        ensures
            forall|x: int, y: int|
                on_screen(x, y) ==> #[trigger] self.level(x, y) == (if low == 0 {
                    0u8
                } else {
                    1u8
                }) | (if high == 0 {
                    0u8
                } else {
                    2u8
                }),
    {
        assert forall|x: int, y: int| on_screen(x, y) implies #[trigger] self.level(x, y) == (
        if low == 0 {
            0u8
        } else {
            1u8
        }) | (if high == 0 {
            0u8
        } else {
            2u8
        }) by {
            let k = (self.orientation.row(y) % 8) as u8;
            assert(k < 8 ==> 0xFFu8 & (0x80u8 >> k) != 0 && 0u8 & (0x80u8 >> k) == 0)
                by (bit_vector);
            let i = self.orientation.byte(x, y);
            assert(0 <= i < PLANE_BYTES);
            assert(self.lsb@[i] == low && self.msb@[i] == high);
        }
    }

    /// One level everywhere.
    pub fn clear(&mut self, level: u8)
        ensures
            final(self).orientation == old(self).orientation,
            forall|x: int, y: int|
                on_screen(x, y) ==> #[trigger] final(self).level(x, y) == level & 3,
    {
        let low: u8 = if level & 1 != 0 {
            0xFF
        } else {
            0
        };
        let high: u8 = if level & 2 != 0 {
            0xFF
        } else {
            0
        };
        let mut i: usize = 0;
        while i < PLANE_BYTES
            invariant
                i <= PLANE_BYTES,
                self.orientation == old(self).orientation,
                forall|k: int| 0 <= k < i ==> #[trigger] self.lsb@[k] == low,
                forall|k: int| 0 <= k < i ==> #[trigger] self.msb@[k] == high,
            decreases PLANE_BYTES - i,
        {
            self.lsb[i] = low;
            self.msb[i] = high;
            i += 1;
        }
        proof {
            self.uniform(low, high);
            level_bits(level);
            assert(level & 3 == (if low == 0 {
                0u8
            } else {
                1u8
            }) | (if high == 0 {
                0u8
            } else {
                2u8
            }));
        }
    }

    pub fn clear_white(&mut self)
        ensures
            final(self).orientation == old(self).orientation,
            forall|x: int, y: int|
                on_screen(x, y) ==> #[trigger] final(self).level(x, y) == 3,
    {
        proof {
            crate::bits::two_bits_make_a_level();
        }
        self.clear(3);
    }

    pub fn clear_black(&mut self)
        ensures
            final(self).orientation == old(self).orientation,
            forall|x: int, y: int|
                on_screen(x, y) ==> #[trigger] final(self).level(x, y) == 0,
    {
        proof {
            crate::bits::two_bits_make_a_level();
        }
        self.clear(0);
    }

    fn locate(&self, x: u32, y: u32) -> (place: (usize, u8))
        requires
            self.orientation.holds(x as int, y as int),
        ensures
            place.0 == self.orientation.byte(x as int, y as int),
            place.1 == self.orientation.bit(y as int),
    {
        let x = if self.orientation.flip_x {
            WIDTH - 1 - x
        } else {
            x
        };
        let y = if self.orientation.flip_y {
            HEIGHT - 1 - y
        } else {
            y
        };
        ((x as usize) * ROW_BYTES + (y as usize) / 8, 0x80u8 >> ((y % 8) as u8))
    }

    /// Set a pixel to gray level 0..=3 (0 = black). Out-of-range is ignored.
    pub fn set_pixel(&mut self, x: i32, y: i32, level: u8)
        ensures
            final(self).orientation == old(self).orientation,
            !on_screen(x as int, y as int) ==> *final(self) == *old(self),
            forall|px: int, py: int|
                on_screen(px, py) ==> #[trigger] final(self).level(px, py) == if px == x && py
                    == y {
                    level & 3
                } else {
                    old(self).level(px, py)
                },
    {
        if x < 0 || y < 0 || x as u32 >= WIDTH || y as u32 >= HEIGHT {
            return;
        }
        let (idx, bit) = self.locate(x as u32, y as u32);
        if level & 1 != 0 {
            self.lsb[idx] = self.lsb[idx] | bit;
        } else {
            self.lsb[idx] = self.lsb[idx] & !bit;
        }
        if level & 2 != 0 {
            self.msb[idx] = self.msb[idx] | bit;
        } else {
            self.msb[idx] = self.msb[idx] & !bit;
        }
        proof {
            let o = self.orientation;
            let j = (o.row(y as int) % 8) as u8;
            level_bits(level);
            assert forall|px: int, py: int| on_screen(px, py) implies #[trigger] self.level(px, py)
                == if px == x && py == y {
                level & 3
            } else {
                old(self).level(px, py)
            } by {
                let k = (o.row(py) % 8) as u8;
                let i = o.byte(px, py);
                assert(0 <= i < PLANE_BYTES);
                bits_are_apart(old(self).lsb@[i], j, k, level & 1 != 0);
                bits_are_apart(old(self).msb@[i], j, k, level & 2 != 0);
                if i == idx && k == j {
                    assert(o.col(px) == o.col(x as int));
                    assert(o.row(py) == o.row(y as int));
                }
            }
        }
    }

    /// The gray level of a pixel.
    pub fn get_pixel(&self, x: u32, y: u32) -> (level: u8)
        requires
            self.orientation.holds(x as int, y as int),
        ensures
            level == self.level(x as int, y as int),
    {
        let (idx, bit) = self.locate(x, y);
        let low: u8 = if self.lsb[idx] & bit != 0 {
            1
        } else {
            0
        };
        let high: u8 = if self.msb[idx] & bit != 0 {
            2
        } else {
            0
        };
        low | high
    }

    /// The monochrome view of the image (white if level >= 2).
    pub fn mono_plane(&self) -> (mono: &[u8; PLANE_BYTES])
        ensures
            mono@ == self.msb@,
            forall|x: int, y: int|
                on_screen(x, y) ==> (#[trigger] self.level(x, y) >= 2
                    <==> mono@[self.orientation.byte(x, y)] & self.orientation.bit(y) != 0),
    {
        proof {
            crate::bits::two_bits_make_a_level();
        }
        &self.msb
    }

    /// Copy the full image from `src` (used to track what is on glass).
    pub fn copy_from(&mut self, src: &FrameBuffer)
        ensures
            final(self).lsb@ == src.lsb@,
            final(self).msb@ == src.msb@,
            final(self).orientation == old(self).orientation,
    {
        let mut i: usize = 0;
        while i < PLANE_BYTES
            invariant
                i <= PLANE_BYTES,
                self.orientation == old(self).orientation,
                forall|k: int| 0 <= k < i ==> #[trigger] self.lsb@[k] == src.lsb@[k],
                forall|k: int| 0 <= k < i ==> #[trigger] self.msb@[k] == src.msb@[k],
            decreases PLANE_BYTES - i,
        {
            self.lsb[i] = src.lsb[i];
            self.msb[i] = src.msb[i];
            i += 1;
        }
        assert(self.lsb@ =~= src.lsb@);
        assert(self.msb@ =~= src.msb@);
    }

    /// Fold a monochrome update into this buffer: for the given *native*
    /// region (rows = logical x, byte-aligned bit columns = logical y), set
    /// both planes to `mono` so the buffer matches the glass after a
    /// monochrome refresh of the region.
    pub fn apply_mono_region(&mut self, mono: &[u8; PLANE_BYTES], x0: u16, w: u16, y0: u16, h: u16)
        requires
            1 <= x0 + w <= u16::MAX,
            1 <= y0 + h <= u16::MAX,
            y0 <= last_row(y0, h) ==> first_byte(x0) <= last_byte(x0, w) + 1,
        ensures
            final(self).orientation == old(self).orientation,
            final(self).lsb@ == patched(
                old(self).lsb@,
                mono@,
                first_byte(x0),
                last_byte(x0, w),
                y0 as int,
                last_row(y0, h),
            ),
            final(self).msb@ == patched(
                old(self).msb@,
                mono@,
                first_byte(x0),
                last_byte(x0, w),
                y0 as int,
                last_row(y0, h),
            ),
    {
        let first = (x0 / 8) as usize;
        let end = (x0 + w - 1) as usize / 8;
        let last = if end < ROW_BYTES {
            end
        } else {
            ROW_BYTES - 1
        };
        let rows_end = (y0 + h - 1) as usize;
        let ye = if rows_end < WIDTH as usize {
            rows_end
        } else {
            WIDTH as usize - 1
        };
        let mut i: usize = 0;
        while i < PLANE_BYTES
            invariant
                i <= PLANE_BYTES,
                first == first_byte(x0),
                last == last_byte(x0, w),
                ye == last_row(y0, h),
                self.orientation == old(self).orientation,
                forall|k: int|
                    0 <= k < i ==> #[trigger] self.lsb@[k] == patched(
                        old(self).lsb@,
                        mono@,
                        first as int,
                        last as int,
                        y0 as int,
                        ye as int,
                    )[k],
                forall|k: int|
                    0 <= k < i ==> #[trigger] self.msb@[k] == patched(
                        old(self).msb@,
                        mono@,
                        first as int,
                        last as int,
                        y0 as int,
                        ye as int,
                    )[k],
                forall|k: int|
                    i <= k < PLANE_BYTES ==> #[trigger] self.lsb@[k] == old(self).lsb@[k],
                forall|k: int|
                    i <= k < PLANE_BYTES ==> #[trigger] self.msb@[k] == old(self).msb@[k],
            decreases PLANE_BYTES - i,
        {
            let row = i / ROW_BYTES;
            let col = i % ROW_BYTES;
            if y0 as usize <= row && row <= ye && first <= col && col <= last {
                self.lsb[i] = mono[i];
                self.msb[i] = mono[i];
            }
            i += 1;
        }
        assert(self.lsb@ =~= patched(
            old(self).lsb@,
            mono@,
            first as int,
            last as int,
            y0 as int,
            ye as int,
        ));
        assert(self.msb@ =~= patched(
            old(self).msb@,
            mono@,
            first as int,
            last as int,
            y0 as int,
            ye as int,
        ));
    }

    /// Map a logical rectangle (portrait coords) to the native region used by
    /// the partial refresh / `apply_mono_region`: returns (x0_bits, w_bits,
    /// y0_rows, h_rows). Assumes no orientation flips.
    pub fn native_region(x: u32, y: u32, w: u32, h: u32) -> (r: (u16, u16, u16, u16))
        ensures
            r == native(x, y, w, h),
    {
        let x = if x < WIDTH {
            x
        } else {
            WIDTH - 1
        };
        let y = if y < HEIGHT {
            y
        } else {
            HEIGHT - 1
        };
        let w = if w < WIDTH - x {
            w
        } else {
            WIDTH - x
        };
        let h = if h < HEIGHT - y {
            h
        } else {
            HEIGHT - y
        };
        (y as u16, h as u16, x as u16, w as u16)
    }

    /// Width and height.
    pub fn size(&self) -> (size: (u32, u32))
        ensures
            size == (WIDTH, HEIGHT),
    {
        (WIDTH, HEIGHT)
    }

    /// Fill the part of a rectangle that lies on the screen.
    pub fn fill_solid(&mut self, area: Area, level: u8)
        requires
            area.representable(),
        ensures
            final(self).orientation == old(self).orientation,
            forall|px: int, py: int|
                on_screen(px, py) ==> #[trigger] final(self).level(px, py) == if area.covers(
                    px,
                    py,
                ) {
                    level & 3
                } else {
                    old(self).level(px, py)
                },
    {
        let (x0, x1, y0, y1) = clipped(area, WIDTH, HEIGHT);
        let mut x = x0;
        while x < x1
            invariant
                x0 <= x <= x1 <= WIDTH,
                y0 <= y1 <= HEIGHT,
                self.orientation == old(self).orientation,
                forall|px: int, py: int|
                    on_screen(px, py) ==> #[trigger] self.level(px, py) == if x0 <= px < x && y0
                        <= py < y1 {
                        level & 3
                    } else {
                        old(self).level(px, py)
                    },
            decreases x1 - x,
        {
            let mut y = y0;
            while y < y1
                invariant
                    x0 <= x < x1 <= WIDTH,
                    y0 <= y <= y1 <= HEIGHT,
                    self.orientation == old(self).orientation,
                    forall|px: int, py: int|
                        on_screen(px, py) ==> #[trigger] self.level(px, py) == if (x0 <= px < x
                            && y0 <= py < y1) || (px == x && y0 <= py < y) {
                            level & 3
                        } else {
                            old(self).level(px, py)
                        },
                decreases y1 - y,
            {
                self.set_pixel(x as i32, y as i32, level);
                y += 1;
            }
            x += 1;
        }
        assert forall|px: int, py: int| on_screen(px, py) implies #[trigger] self.level(px, py)
            == if area.covers(px, py) {
            level & 3
        } else {
            old(self).level(px, py)
        } by {
            assert((x0 <= px < x1 && y0 <= py < y1) <==> area.covers(px, py) && 0 <= px < WIDTH
                && 0 <= py < HEIGHT);
        }
    }

    /// Draw one pixel of a half-size image as a block of two by two.
    pub fn set_block(&mut self, x: i32, y: i32, level: u8)
        requires
            i32::MIN <= x * 2 < i32::MAX,
            i32::MIN <= y * 2 < i32::MAX,
        ensures
            final(self).orientation == old(self).orientation,
            forall|px: int, py: int|
                on_screen(px, py) ==> #[trigger] final(self).level(px, py) == if px / 2 == x && py
                    / 2 == y {
                    level & 3
                } else {
                    old(self).level(px, py)
                },
    {
        let (x2, y2) = (x * 2, y * 2);
        self.set_pixel(x2, y2, level);
        self.set_pixel(x2 + 1, y2, level);
        self.set_pixel(x2, y2 + 1, level);
        self.set_pixel(x2 + 1, y2 + 1, level);
    }
}

/// Where a pixel is kept: column after column of a hundred bytes, eight pixels
/// to a byte from the top bit down; flips count from the other side. Its level
/// is one for the low plane and two for the high one.
pub proof fn pixels_have_their_place(fb: FrameBuffer, x: int, y: int)
    requires
        0 <= x < 480,
        0 <= y < 800,
    ensures
        ({
            let col = if fb.orientation.flip_x {
                479 - x
            } else {
                x
            };
            let row = if fb.orientation.flip_y {
                799 - y
            } else {
                y
            };
            let i = 100 * col + row / 8;
            let k = (7 - row % 8) as u8;
            fb.level(x, y) == ((fb.lsb@[i] >> k) & 1) + 2 * ((fb.msb@[i] >> k) & 1)
        }),
{
    let o = fb.orientation;
    let j = (o.row(y) % 8) as u8;
    let i = o.byte(x, y);
    let low = fb.lsb@[i];
    let high = fb.msb@[i];
    let k = (7 - j) as u8;
    assert(j < 8 && k == 7 - j ==> ((low & (0x80u8 >> j) != 0) == ((low >> k) & 1 == 1)) && ((high
        & (0x80u8 >> j) != 0) == ((high >> k) & 1 == 1)) && (low >> k) & 1 <= 1 && (high >> k) & 1
        <= 1 && (1u8 | 2u8) == 3 && (0u8 | 2u8) == 2 && (1u8 | 0u8) == 1 && (0u8 | 0u8) == 0)
        by (bit_vector);
}

/// A logical rectangle in native terms: its top is the first bit column, its
/// left side the first row, and it ends with the screen.
pub proof fn regions_are_turned(x: u32, y: u32, w: u32, h: u32)
    requires
        x < 480,
        y < 800,
    ensures
        ({
            let (x0, nw, y0, nh) = native(x, y, w, h);
            &&& x0 == y && y0 == x
            &&& nh == if x + w <= 480 {
                w as int
            } else {
                480 - x
            }
            &&& nw == if y + h <= 800 {
                h as int
            } else {
                800 - y
            }
        }),
{
}

/// Folding a plane in replaces the bytes of the rows and byte columns named,
/// and no others; columns are rounded outwards and cut at the edge.
pub proof fn folding_replaces_a_rectangle(
    plane: Seq<u8>,
    src: Seq<u8>,
    x0: u16,
    w: u16,
    y0: u16,
    h: u16,
    row: int,
    col: int,
)
    requires
        plane.len() == PLANE_BYTES,
        src.len() == PLANE_BYTES,
        0 <= row < 480,
        0 <= col < 100,
        w > 0,
        h > 0,
    ensures
        patched(plane, src, first_byte(x0), last_byte(x0, w), y0 as int, last_row(y0, h))[100 * row
            + col] == if y0 <= row < y0 + h && x0 < 8 * (col + 1) && 8 * col < x0 + w {
            src[100 * row + col]
        } else {
            plane[100 * row + col]
        },
{
    let i = 100 * row + col;
    assert(i / 100 == row && i % 100 == col);
}

} // verus!
