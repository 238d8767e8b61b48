//! Frame content synthesis: the gradient the renderer draws, one four-byte
//! ARGB pixel at a time, plus the animation phase (`shift`) that a pointer
//! press toggles and each drawn frame advances.
//!
//! The canvas layout follows the buffer slots: row-major, four bytes per
//! pixel, little-endian ARGB — blue, green, red, alpha.

use vstd::prelude::*;

verus! {

/// The smaller of two mathematical integers.
pub open spec fn spec_min(a: int, b: int) -> int {
    if a < b {
        a
    } else {
        b
    }
}

/// The red channel at column `x`, row `y` of a `w` x `h` gradient.
pub open spec fn spec_red(w: int, h: int, x: int, y: int) -> int {
    spec_min(((w - x) * 255) / w, ((h - y) * 255) / h)
}

/// The green channel.
pub open spec fn spec_green(w: int, h: int, x: int, y: int) -> int {
    spec_min((x * 255) / w, ((h - y) * 255) / h)
}

/// The blue channel.
pub open spec fn spec_blue(w: int, h: int, x: int, y: int) -> int {
    spec_min(((w - x) * 255) / w, (y * 255) / h)
}

/// Byte `i` of the canvas of a `w` x `h` frame drawn with animation phase
/// `shift`: pixel `i / 4` sits at column `(i / 4 + shift) % w`, row
/// `(i / 4) / w`, and its four bytes are blue, green, red, alpha in order.
pub open spec fn spec_pixel_byte(w: u32, h: u32, shift: u32, i: int) -> u8
    recommends
        w > 0,
        h > 0,
{
    let p = i / 4;
    let x = (p + shift) % (w as int);
    let y = p / (w as int);
    if i % 4 == 0 {
        spec_blue(w as int, h as int, x, y) as u8
    } else if i % 4 == 1 {
        spec_green(w as int, h as int, x, y) as u8
    } else if i % 4 == 2 {
        spec_red(w as int, h as int, x, y) as u8
    } else {
        255u8
    }
}

/// The full canvas of a `w` x `h` frame: `4 * w * h` bytes.
pub open spec fn spec_canvas(w: u32, h: u32, shift: u32) -> Seq<u8>
    recommends
        w > 0,
        h > 0,
{
    Seq::new((4 * (w as int) * (h as int)) as nat, |i: int| spec_pixel_byte(w, h, shift, i))
}

/// A scaled ratio `a * 255 / d` stays a channel value when `a` is at most
/// `d`.
proof fn lemma_channel_bound(a: int, d: int)
    requires
        0 < d,
        0 <= a <= d,
    ensures
        0 <= (a * 255) / d <= 255,
{
    assert(0 <= (a * 255) / d <= 255) by (nonlinear_arith)
        requires
            0 < d,
            0 <= a <= d,
    ;
}

/// Render one frame into a fresh byte vector.
///
/// Returns exactly the canvas `spec_canvas` describes: the gradient of the
/// given geometry, shifted horizontally by `shift` columns.
pub fn render_canvas(width: u32, height: u32, shift: u32) -> (v: Vec<u8>)
    requires
        width > 0,
        height > 0,
        4 * (width as int) * (height as int) <= usize::MAX,
    ensures
        v@ == spec_canvas(width, height, shift),
        v@.len() == 4 * (width as int) * (height as int),
{
    let w64: u64 = width as u64;
    let h64: u64 = height as u64;
    proof {
        assert((width as int) * (height as int) * 4 == 4 * (width as int) * (height as int))
            by (nonlinear_arith);
    }
    let npixels: u64 = w64 * h64;
    let n: usize = npixels as usize;
    let mut v: Vec<u8> = Vec::new();
    let mut p: usize = 0;
    while p < n
        invariant
            width > 0,
            height > 0,
            w64 == width,
            h64 == height,
            npixels == (width as int) * (height as int),
            4 * (width as int) * (height as int) <= usize::MAX,
            4 * (npixels as int) <= usize::MAX,
            n == npixels,
            p <= n,
            v@.len() == 4 * p,
            forall|i: int| 0 <= i < 4 * p ==> v@[i] == spec_pixel_byte(width, height, shift, i),
        decreases n - p,
    {
        let x: u64 = (p as u64 + shift as u64) % w64;
        let y: u64 = p as u64 / w64;
        proof {
            assert(y < h64) by (nonlinear_arith)
                requires
                    w64 > 0,
                    (p as int) < (w64 as int) * (h64 as int),
                    y == (p as int) / (w64 as int),
            ;
            lemma_channel_bound((w64 - x) as int, w64 as int);
            lemma_channel_bound((x as int), w64 as int);
            lemma_channel_bound((h64 - y) as int, h64 as int);
            lemma_channel_bound((y as int), h64 as int);
        }
        let rising_x: u64 = (x * 255) / w64;
        let falling_x: u64 = ((w64 - x) * 255) / w64;
        let rising_y: u64 = (y * 255) / h64;
        let falling_y: u64 = ((h64 - y) * 255) / h64;
        let red: u64 = if falling_x < falling_y {
            falling_x
        } else {
            falling_y
        };
        let green: u64 = if rising_x < falling_y {
            rising_x
        } else {
            falling_y
        };
        let blue: u64 = if falling_x < rising_y {
            falling_x
        } else {
            rising_y
        };
        proof {
            assert((4 * p as int) / 4 == p as int);
            assert((4 * p as int + 1) / 4 == p as int);
            assert((4 * p as int + 2) / 4 == p as int);
            assert((4 * p as int) % 4 == 0);
            assert((4 * p as int + 1) % 4 == 1);
            assert((4 * p as int + 2) % 4 == 2);
            assert((4 * p as int + 3) % 4 == 3);
        }
        v.push(blue as u8);
        v.push(green as u8);
        v.push(red as u8);
        v.push(255u8);
        p = p + 1;
    }
    proof {
        assert(v@ =~= spec_canvas(width, height, shift));
    }
    v
}

/// The animation phase after a pointer press toggles it: off becomes phase
/// zero, any running phase turns off.
pub open spec fn spec_toggle_shift(shift: Option<u32>) -> Option<u32> {
    match shift {
        None => Some(0u32),
        Some(_) => None,
    }
}

/// Toggle the animation phase.
pub fn toggle_shift(shift: Option<u32>) -> (r: Option<u32>)
    ensures
        r == spec_toggle_shift(shift),
{
    match shift {
        None => Some(0u32),
        Some(_) => None,
    }
}

/// The animation phase after one drawn frame: a running phase advances by
/// one column, wrapping at the frame width; an off phase stays off.
pub open spec fn spec_step_shift(shift: Option<u32>, width: u32) -> Option<u32>
    recommends
        width > 0,
{
    match shift {
        None => None,
        Some(s) => Some(((s as int + 1) % (width as int)) as u32),
    }
}

/// Advance the animation phase by one drawn frame.
pub fn step_shift(shift: Option<u32>, width: u32) -> (r: Option<u32>)
    requires
        width > 0,
    ensures
        r == spec_step_shift(shift, width),
{
    match shift {
        None => None,
        Some(s) => {
            let next: u64 = (s as u64 + 1) % (width as u64);
            Some(next as u32)
        },
    }
}

} // verus!
