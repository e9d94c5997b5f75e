//! Frame sources over raw video data: a video is a concatenation of frames
//! of exactly `FRAME_SIZE` bytes each, every pixel already in the panel's
//! native 16-bit format. Construction validates that the data is a positive
//! whole number of frames; reading is offered two ways with one contract —
//! a zero-copy borrowed view of a frame, and a streaming read that copies
//! into a caller-owned `Frame` while keeping a sequential cursor, the way a
//! file-backed reader would to skip redundant seeks.

use vstd::prelude::*;
use vstd::slice::slice_subrange;
use vstd::arithmetic::div_mod::lemma_fundamental_div_mod;

verus! {

/// Bytes per frame: one 128 x 128 panel, two bytes per pixel.
pub const FRAME_SIZE: usize = 128 * 128 * 2;

/// Why a video could not be built or read.
#[derive(Debug)]
pub enum VideoError {
    /// The data's size is zero or not a whole number of frames.
    CorruptedFile { file_size: u64 },
    /// The underlying store failed to deliver the bytes.
    IOError(std::io::Error),
}

/// One frame's pixels, owned by the caller.
pub struct Frame(pub [u8; FRAME_SIZE]);

impl View for Frame {
    type V = Seq<u8>;

    open spec fn view(&self) -> Seq<u8> {
        self.0@
    }
}

impl Frame {
    /// A zeroed frame.
    pub fn new() -> (f: Frame)
        ensures
            f@.len() == FRAME_SIZE,
            forall|i: int| 0 <= i < f@.len() ==> f@[i] == 0u8,
    {
        Frame([0u8; FRAME_SIZE])
    }
}

/// The bytes of frame `n` inside a video's data: the half-open range from
/// `n * FRAME_SIZE` to `(n + 1) * FRAME_SIZE`.
pub open spec fn frame_bytes(data: Seq<u8>, n: int) -> Seq<u8> {
    data.subrange(n * FRAME_SIZE, (n + 1) * FRAME_SIZE)
}

/// Relies on std's `io::Error::from(ErrorKind)`: builds the end-of-file
/// error a short read reports.
#[verifier::external_body]
fn io_unexpected_eof() -> std::io::Error {
    std::io::Error::from(std::io::ErrorKind::UnexpectedEof)
}

/// A frame-indexed byte store over one video's raw data. Read-only and
/// immutable for its lifetime, except for the streaming cursor.
pub struct Video {
    data: Vec<u8>,
    frames: usize,
    pos: usize,
}

impl Video {
    /// The video's whole raw data.
    pub closed spec fn contents(self) -> Seq<u8> {
        self.data@
    }

    /// How many whole frames the data holds.
    pub closed spec fn spec_frames(self) -> usize {
        self.frames
    }

    /// The streaming cursor: the byte offset right after the last frame
    /// read, from which a sequential read continues in place.
    pub closed spec fn spec_pos(self) -> usize {
        self.pos
    }

    /// The data is a positive whole number of frames and the cursor stays
    /// inside it.
    pub open spec fn wf(self) -> bool {
        &&& self.spec_frames() * FRAME_SIZE == self.contents().len()
        &&& self.spec_frames() >= 1
        &&& self.spec_pos() <= self.contents().len()
    }

    /// Validates raw video data and builds the store over it: succeeds if
    /// and only if the data is non-empty and a whole number of frames, with
    /// a frame count of exactly `len / FRAME_SIZE` and the cursor at the
    /// start; anything else fails with `CorruptedFile` carrying the size.
    pub fn new(data: Vec<u8>) -> (r: Result<Video, VideoError>)
        ensures
            r is Ok <==> data@.len() > 0 && data@.len() as int % (FRAME_SIZE as int) == 0,
            r matches Ok(v) ==> v.wf() && v.contents() == data@ && v.spec_frames() == data@.len()
                as int / (FRAME_SIZE as int) && v.spec_pos() == 0,
            r matches Err(e) ==> (e matches VideoError::CorruptedFile { file_size } && file_size
                == data@.len()),
    {
        let len = data.len();
        if len == 0 || len % FRAME_SIZE != 0 {
            return Err(VideoError::CorruptedFile { file_size: len as u64 });
        }
        let frames = len / FRAME_SIZE;
        proof {
            lemma_fundamental_div_mod(len as int, FRAME_SIZE as int);
        }
        Ok(Video { data, frames, pos: 0 })
    }

    /// How many frames the video holds.
    pub fn frames(&self) -> (n: usize)
        ensures
            n == self.spec_frames(),
    {
        self.frames
    }

    /// Zero-copy random access: borrows frame `n` straight out of the data.
    pub fn frame(&self, n: usize) -> (r: &[u8])
        requires
            self.wf(),
            n < self.spec_frames(),
        ensures
            r@ == frame_bytes(self.contents(), n as int),
    {
        let data_len = self.data.len();
        proof {
            lemma_frame_in_range(self.spec_frames(), n as int);
            assert(n * FRAME_SIZE + FRAME_SIZE <= data_len);
        }
        let offset = n * FRAME_SIZE;
        slice_subrange(self.data.as_slice(), offset, offset + FRAME_SIZE)
    }

    /// Streaming read: copies frame `n` into a caller-owned `Frame` and
    /// leaves the cursor right after it, so that reading frame `n + 1` next
    /// continues in place (the sequential fast path; any other index
    /// repositions the cursor first, as a file-backed reader would seek).
    /// An in-range index is owed success — an in-memory store always
    /// delivers; an index past the end fails like the short read it would
    /// be, with an I/O error, no frame, and an unmoved cursor.
    pub fn read_frame(&mut self, n: u64) -> (r: Result<Frame, VideoError>)
        requires
            old(self).wf(),
        ensures
            final(self).wf(),
            final(self).contents() == old(self).contents(),
            final(self).spec_frames() == old(self).spec_frames(),
            r is Ok <==> n < old(self).spec_frames(),
            r matches Ok(f) ==> f@ == frame_bytes(old(self).contents(), n as int)
                && final(self).spec_pos() == (n + 1) * FRAME_SIZE,
            r is Err ==> (r matches Err(VideoError::IOError(_))
                && final(self).spec_pos() == old(self).spec_pos()),
    {
        if n >= self.frames as u64 {
            return Err(VideoError::IOError(io_unexpected_eof()));
        }
        let data_len = self.data.len();
        proof {
            lemma_frame_in_range(self.spec_frames(), n as int);
        }
        let mut frame = Frame::new();
        // With the data in memory the read starts at the frame's offset
        // either way; the cursor contract is what lets a file-backed reader
        // recognize a sequential read (cursor already at the offset) and
        // skip the repositioning.
        let offset: usize = (n as usize) * FRAME_SIZE;
        let mut i: usize = 0;
        while i < FRAME_SIZE
            invariant
                i <= FRAME_SIZE,
                offset == n * FRAME_SIZE,
                data_len == self.contents().len(),
                offset + FRAME_SIZE <= data_len,
                self == old(self),
                frame@.len() == FRAME_SIZE,
                forall|j: int| 0 <= j < i ==> frame@[j] == self.contents()[offset + j],
            decreases FRAME_SIZE - i,
        {
            let b = *self.data.get(offset + i).unwrap();
            frame.0[i] = b;
            i = i + 1;
        }
        self.pos = offset + FRAME_SIZE;
        assert(frame@ =~= frame_bytes(old(self).contents(), n as int));
        Ok(frame)
    }
}

/// A frame index inside the frame count addresses bytes inside the data.
proof fn lemma_frame_in_range(frames: usize, n: int)
    requires
        0 <= n < frames,
    ensures
        (n + 1) * FRAME_SIZE <= frames * FRAME_SIZE,
        n * FRAME_SIZE >= 0,
        n * FRAME_SIZE + FRAME_SIZE == (n + 1) * FRAME_SIZE,
{
    assert((n + 1) * FRAME_SIZE <= frames * FRAME_SIZE && n * FRAME_SIZE >= 0 && n * FRAME_SIZE
        + FRAME_SIZE == (n + 1) * FRAME_SIZE) by (nonlinear_arith)
        requires
            0 <= n < frames,
    ;
}

} // verus!
