use vstd::prelude::*;

verus! {

/// Channel `c` (0: red, 1: green, 2: blue, 3: alpha) of display pixel `p`.
///
/// The device stores a pixel as blue, green, red, alpha; the display wants
/// red, green, blue, alpha. Alpha passes through unchanged. A pixel that the
/// device buffer does not hold in full is opaque black.
pub open spec fn display_channel(frame: Seq<u8>, p: int, c: int) -> u8 {
    if 4 * p + 4 <= frame.len() {
        if c == 3 {
            frame[4 * p + 3]
        } else {
            frame[4 * p + 2 - c]
        }
    } else if c == 3 {
        255
    } else {
        0
    }
}

/// An image ready for the display: its size, and its pixels as red, green,
/// blue, alpha bytes (alpha not premultiplied).
pub struct DisplayFrame {
    pub width: u16,
    pub height: u16,
    pub rgba: Vec<u8>,
    /// The device changed its screen size, which the host window cannot follow.
    pub resized: bool,
}

/// Converts the device's pixel buffer into display order, for an image of
/// `width` by `height` pixels.
pub fn frame_to_rgba(frame: &[u8], width: u16, height: u16) -> (r: Vec<u8>)
    ensures
        r@.len() == 4 * ((width as int) * (height as int)),
        forall|i: int| 0 <= i < r@.len() ==> #[trigger] r@[i] == display_channel(frame@, i / 4, i % 4),
{
    proof {
        assert((width as int) * (height as int) <= 0xffff * 0xffff) by (nonlinear_arith)
            requires
                width <= 0xffff,
                height <= 0xffff,
        ;
    }
    let n: usize = (width as usize) * (height as usize);
    let len: usize = frame.len();
    let full: usize = len / 4;
    let mut out: Vec<u8> = Vec::new();
    let mut p: usize = 0;
    while p < n
        invariant
            p <= n,
            n == (width as int) * (height as int),
            len == frame@.len(),
            full == len / 4,
            out@.len() == 4 * p,
            forall|i: int| 0 <= i < out@.len() ==> #[trigger] out@[i] == display_channel(frame@, i / 4, i % 4),
        decreases n - p,
    {
        let ghost prev = out@;
        if p < full {
            assert(4 * p + 4 <= frame@.len());
            let base: usize = 4 * p;
            out.push(frame[base + 2]);
            out.push(frame[base + 1]);
            out.push(frame[base]);
            out.push(frame[base + 3]);
        } else {
            out.push(0);
            out.push(0);
            out.push(0);
            out.push(255);
        }
        assert forall|i: int| 0 <= i < out@.len() implies #[trigger] out@[i] == display_channel(frame@, i / 4, i % 4) by {
            if i < 4 * p {
                assert(out@[i] == prev[i]);
            } else {
                assert(i / 4 == p && i % 4 == i - 4 * p);
            }
        }
        p = p + 1;
    }
    out
}

/// Prepares the device's current output for the display: converts its
/// pixels, and notes whether its size differs from the size seen before it.
pub fn present_frame(prev_size: (u16, u16), size: (u16, u16), frame: &[u8]) -> (r: DisplayFrame)
    ensures
        r.width == size.0,
        r.height == size.1,
        r.resized == (prev_size != size),
        r.rgba@.len() == 4 * ((size.0 as int) * (size.1 as int)),
        forall|i: int|
            0 <= i < r.rgba@.len() ==> #[trigger] r.rgba@[i] == display_channel(frame@, i / 4, i % 4),
{
    let resized = prev_size.0 != size.0 || prev_size.1 != size.1;
    DisplayFrame { width: size.0, height: size.1, rgba: frame_to_rgba(frame, size.0, size.1), resized }
}

} // verus!
