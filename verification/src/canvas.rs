//! Pixel arithmetic of the emulator's window.

use crate::vocabulary::Rectangle;
use vstd::arithmetic::div_mod::lemma_fundamental_div_mod_converse;
use vstd::prelude::*;

verus! {

/// A pixel that is to be set.
#[derive(Clone, Copy, Debug, PartialEq, Eq)]
pub struct Pixel {
    pub x: u32,
    pub y: u32,
    pub color: u8,
}

/// What becomes of a shade of gray.
#[derive(Clone, Copy, Debug, PartialEq, Eq)]
pub enum Tone {
    /// Black becomes white and white becomes black.
    Inverted,
    /// It gets darker by so much, and black at the darkest.
    Shifted(u8),
}

impl Tone {
    /// What becomes of a shade of gray.
    pub open spec fn spec_apply(self, color: u8) -> u8 {
        match self {
            Tone::Inverted => (255 - color) as u8,
            Tone::Shifted(drift) => if color >= drift {
                (color - drift) as u8
            } else {
                0
            },
        }
    }

    /// What becomes of a shade of gray.
    fn apply(self, color: u8) -> (result: u8)
        ensures
            result == self.spec_apply(color),
    {
        match self {
            Tone::Inverted => 255 - color,
            Tone::Shifted(drift) => color.saturating_sub(drift),
        }
    }
}

impl Rectangle {
    /// The number of columns. There are none where the corners are swapped.
    pub open spec fn columns(self) -> nat {
        if self.max.x > self.min.x {
            (self.max.x - self.min.x) as nat
        } else {
            0
        }
    }

    /// The number of rows. There are none where the corners are swapped.
    pub open spec fn rows(self) -> nat {
        if self.max.y > self.min.y {
            (self.max.y - self.min.y) as nat
        } else {
            0
        }
    }

    /// The sides of the rectangle and the place of its last pixel, at three
    /// bytes a pixel, can be counted.
    pub open spec fn countable(self) -> bool {
        &&& self.columns() <= i32::MAX
        &&& self.rows() <= i32::MAX
        &&& 3 * (self.rows() * self.columns() - 1) <= u32::MAX
    }
}

/// The rectangle is countable, and so many bytes reach up to its last pixel.
pub open spec fn held(rect: Rectangle, bytes: nat) -> bool {
    rect.countable() && 3 * (rect.rows() * rect.columns() - 1) < bytes
}

/// Whether the rectangle is countable, and so many bytes reach up to its last
/// pixel.
pub fn is_held(rect: &Rectangle, bytes: usize) -> (answer: bool)
    ensures
        answer == held(*rect, bytes as nat),
{
    let columns: i128 = if rect.max.x > rect.min.x {
        rect.max.x as i128 - rect.min.x as i128
    } else {
        0
    };
    let rows: i128 = if rect.max.y > rect.min.y {
        rect.max.y as i128 - rect.min.y as i128
    } else {
        0
    };
    assert(0 <= rows * columns <= 0xffff_ffff * 0xffff_ffff) by (nonlinear_arith)
        requires
            0 <= rows <= 0xffff_ffff,
            0 <= columns <= 0xffff_ffff,
    ;
    let last: i128 = 3 * (rows * columns - 1);
    columns <= i32::MAX as i128 && rows <= i32::MAX as i128 && last <= u32::MAX as i128 && last
        < bytes as i128
}

/// The pixels of the rectangle, row by row, each with what becomes of its
/// color. `data` holds three bytes for each pixel, row by row, and the first
/// of them is its shade of gray.
pub open spec fn painted(rect: Rectangle, data: Seq<u8>, tone: Tone) -> Seq<Pixel> {
    let w = rect.columns() as int;
    Seq::new(
        rect.rows() * rect.columns(),
        |k: int|
            Pixel {
                x: (rect.min.x + k % w) as u32,
                y: (rect.min.y + k / w) as u32,
                color: tone.spec_apply(data[3 * k]),
            },
    )
}

/// The pixels of the rectangle, row by row, each with what becomes of its
/// color.
fn repaint(rect: &Rectangle, data: &Vec<u8>, tone: Tone) -> (pixels: Vec<Pixel>)
    requires
        held(*rect, data@.len()),
    ensures
        pixels@ == painted(*rect, data@, tone),
{
    let mut pixels: Vec<Pixel> = Vec::new();
    let ghost w = rect.columns() as int;
    let ghost h = rect.rows() as int;
    if rect.max.x <= rect.min.x || rect.max.y <= rect.min.y {
        assert(h * w == 0) by (nonlinear_arith)
            requires
                h == 0 || w == 0,
        ;
        assert(pixels@ =~= painted(*rect, data@, tone));
        return pixels;
    }
    let width: u32 = (rect.max.x - rect.min.x) as u32;
    let mut y: i32 = rect.min.y;
    while y < rect.max.y
        invariant
            rect.countable(),
            w == rect.columns(),
            h == rect.rows(),
            w > 0,
            h > 0,
            width == w,
            3 * (h * w - 1) < data@.len(),
            rect.min.y <= y <= rect.max.y,
            pixels@.len() == (y - rect.min.y) * w,
            forall|k: int|
                0 <= k < pixels@.len() ==> #[trigger] pixels@[k] == (Pixel {
                    x: (rect.min.x + k % w) as u32,
                    y: (rect.min.y + k / w) as u32,
                    color: tone.spec_apply(data@[3 * k]),
                }),
        decreases rect.max.y - y,
    {
        let v: u32 = (y - rect.min.y) as u32;
        let mut x: i32 = rect.min.x;
        while x < rect.max.x
            invariant
                rect.countable(),
                w == rect.columns(),
                h == rect.rows(),
                w > 0,
                h > 0,
                width == w,
                3 * (h * w - 1) < data@.len(),
                rect.min.y <= y < rect.max.y,
                v == y - rect.min.y,
                rect.min.x <= x <= rect.max.x,
                pixels@.len() == v * w + (x - rect.min.x),
                forall|k: int|
                    0 <= k < pixels@.len() ==> #[trigger] pixels@[k] == (Pixel {
                        x: (rect.min.x + k % w) as u32,
                        y: (rect.min.y + k / w) as u32,
                        color: tone.spec_apply(data@[3 * k]),
                    }),
            decreases rect.max.x - x,
        {
            let u: u32 = (x - rect.min.x) as u32;
            let ghost k = v * w + u;
            proof {
                assert(k <= h * w - 1) by (nonlinear_arith)
                    requires
                        k == v * w + u,
                        0 <= u < w,
                        0 <= v <= h - 1,
                ;
                assert(0 <= v * w) by (nonlinear_arith)
                    requires
                        0 <= v,
                        0 < w,
                ;
                lemma_fundamental_div_mod_converse(k, w, v as int, u as int);
            }
            let addr: u32 = 3 * (v * width + u);
            let color = tone.apply(data[addr as usize]);
            pixels.push(
                Pixel {
                    x: #[verifier::truncate]
                    (x as u32),
                    y: #[verifier::truncate]
                    (y as u32),
                    color,
                },
            );
            x = x + 1;
        }
        assert(v * w + w == (y + 1 - rect.min.y) * w) by (nonlinear_arith)
            requires
                v == y - rect.min.y,
        ;
        y = y + 1;
    }
    assert(pixels@ =~= painted(*rect, data@, tone));
    pixels
}

/// The pixels of the rectangle with black and white exchanged.
pub open spec fn inverted(rect: Rectangle, data: Seq<u8>) -> Seq<Pixel> {
    painted(rect, data, Tone::Inverted)
}

/// The pixels of the rectangle, each darker by so much.
pub open spec fn shifted(rect: Rectangle, data: Seq<u8>, drift: u8) -> Seq<Pixel> {
    painted(rect, data, Tone::Shifted(drift))
}

/// The pixels of the rectangle with black and white exchanged.
pub fn invert_region(rect: &Rectangle, data: &Vec<u8>) -> (pixels: Vec<Pixel>)
    requires
        held(*rect, data@.len()),
    ensures
        pixels@ == painted(*rect, data@, Tone::Inverted),
        pixels@ == inverted(*rect, data@),
{
    repaint(rect, data, Tone::Inverted)
}

/// The pixels of the rectangle, each darker by so much.
pub fn shift_region(rect: &Rectangle, data: &Vec<u8>, drift: u8) -> (pixels: Vec<Pixel>)
    requires
        held(*rect, data@.len()),
    ensures
        pixels@ == painted(*rect, data@, Tone::Shifted(drift)),
        pixels@ == shifted(*rect, data@, drift),
{
    repaint(rect, data, Tone::Shifted(drift))
}

/// The width and the height of the window in a rotation: upright windows lie
/// down in the even ones, and lying ones stand up in the odd ones, counted
/// from zero up.
pub open spec fn rotated_size(width: u32, height: u32, n: i8) -> (u32, u32) {
    if (width < height && n as int % 2 == 0) || (width > height && n > 0 && n as int % 2 == 1) {
        (height, width)
    } else {
        (width, height)
    }
}

/// The width and the height of the window in a rotation.
pub fn set_rotation(width: u32, height: u32, n: i8) -> (size: (u32, u32))
    ensures
        size == rotated_size(width, height, n),
{
    if (width < height && n % 2 == 0) || (width > height && n % 2 == 1) {
        (height, width)
    } else {
        (width, height)
    }
}

} // verus!
