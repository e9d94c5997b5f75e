//! Off-screen pixel buffer for one panel: a fixed-size byte array addressed
//! by (x, y), holding each pixel's 16-bit word serialized high byte first at
//! offset `(y * WIDTH + x) * 2`.

use vstd::prelude::*;
use crate::color::Color;

verus! {

/// Panel width in pixels.
pub const WIDTH: usize = 128;

/// Panel height in pixels.
pub const HEIGHT: usize = 128;

/// An (x, y) coordinate outside the buffer was addressed.
#[derive(Clone, Copy, PartialEq, Eq, Structural, Debug)]
pub struct IndexError;

/// The byte offset of the pixel at (x, y): two bytes per pixel, row-major.
pub open spec fn pixel_offset(x: usize, y: usize) -> int {
    (y * WIDTH + x) * 2
}

/// A fixed-size frame buffer of `WIDTH * HEIGHT` pixels, two bytes each.
pub struct FrameBuffer {
    fb: Vec<u8>,
}

impl FrameBuffer {
    /// The buffer's raw contents, as transmitted to the panel.
    pub closed spec fn bytes(self) -> Seq<u8> {
        self.fb@
    }

    /// The buffer always holds exactly two bytes per pixel.
    pub open spec fn wf(self) -> bool {
        self.bytes().len() == WIDTH * HEIGHT * 2
    }

    /// A zeroed buffer.
    pub fn new() -> (fb: FrameBuffer)
        ensures
            fb.wf(),
            forall|i: int| 0 <= i < fb.bytes().len() ==> fb.bytes()[i] == 0u8,
    {
        let mut v: Vec<u8> = Vec::new();
        let mut i: usize = 0;
        while i < WIDTH * HEIGHT * 2
            invariant
                i <= WIDTH * HEIGHT * 2,
                v@.len() == i,
                forall|j: int| 0 <= j < i ==> v@[j] == 0u8,
            decreases WIDTH * HEIGHT * 2 - i,
        {
            v.push(0u8);
            i = i + 1;
        }
        FrameBuffer { fb: v }
    }

    /// Writes a pixel's byte pair, high byte first, at the offset of (x, y).
    /// An out-of-bounds coordinate fails with `IndexError` and leaves the
    /// buffer unmodified; it never wraps around silently.
    pub fn set(&mut self, x: usize, y: usize, color: Color) -> (r: Result<(), IndexError>)
        requires
            old(self).wf(),
        ensures
            final(self).wf(),
            x < WIDTH && y < HEIGHT ==> r is Ok && final(self).bytes() == old(self).bytes()
                .update(pixel_offset(x, y), (color.word() >> 8) as u8)
                .update(pixel_offset(x, y) + 1, color.word() as u8),
            !(x < WIDTH && y < HEIGHT) ==> (r matches Err(e) && e == IndexError
                && final(self).bytes() == old(self).bytes()),
    {
        if x >= WIDTH || y >= HEIGHT {
            return Err(IndexError);
        }
        let idx = (y * WIDTH + x) * 2;
        let word = color.to_word();
        self.fb.set(idx, (word >> 8) as u8);
        self.fb.set(idx + 1, #[verifier::truncate] (word as u8));
        Ok(())
    }

    /// The whole buffer as one byte slice, for transmission; no copy.
    pub fn raw_bytes(&self) -> (r: &[u8])
        ensures
            r@ == self.bytes(),
    {
        self.fb.as_slice()
    }
}

/// Reading back the byte pair written for a pixel recovers the pixel's word:
/// the high byte shifted back into place, OR-ed with the low byte.
pub proof fn lemma_pixel_roundtrip(w: u16)
    ensures
        ((((w >> 8) as u8) as u16) << 8) | ((w as u8) as u16) == w,
{
    assert(((((w >> 8) as u8) as u16) << 8) | ((w as u8) as u16) == w) by (bit_vector);
}

/// After a successful `set` of a pixel at in-bounds (x, y), the byte pair at
/// that pixel's offset holds the big-endian serialization of the pixel, and
/// reading it back high-byte-first recovers the pixel's word exactly.
pub proof fn lemma_set_roundtrip(before: FrameBuffer, after: FrameBuffer, x: usize, y: usize, c: Color)
    requires
        before.wf(),
        x < WIDTH,
        y < HEIGHT,
        after.bytes() == before.bytes()
            .update(pixel_offset(x, y), (c.word() >> 8) as u8)
            .update(pixel_offset(x, y) + 1, c.word() as u8),
    ensures
        after.bytes()[pixel_offset(x, y)] == (c.word() >> 8) as u8,
        after.bytes()[pixel_offset(x, y) + 1] == c.word() as u8,
        ((after.bytes()[pixel_offset(x, y)] as u16) << 8)
            | (after.bytes()[pixel_offset(x, y) + 1] as u16) == c.word(),
{
    assert(pixel_offset(x, y) + 1 < before.bytes().len()) by (nonlinear_arith)
        requires
            x < WIDTH,
            y < HEIGHT,
            before.bytes().len() == WIDTH * HEIGHT * 2,
    ;
    lemma_pixel_roundtrip(c.word());
}

} // verus!
