//! The frame buffer and resynchronizer.
//!
//! Bytes arrive in chunks of arbitrary size and are appended to an internal
//! buffer. After every append the buffer is drained from the front: whenever
//! the declared length of the frame at the front is plausible and that many
//! bytes are buffered, they leave the buffer as one candidate frame. A
//! declared length outside the protocol bounds means the stream is
//! desynchronized; the whole buffer is then discarded so that later bytes can
//! be framed afresh.
//!
//! The spec functions `drain_frames`, `drain_rest` and `drain_desync` are the
//! mathematical model of one such drain pass run to completion; `feed` is the
//! executable counterpart.

use vstd::prelude::*;
use crate::frame::{declared_len, len_in_range, MAX_FRAME_LEN, MIN_FRAME_LEN};

verus! {

/// The candidate frames a drain pass extracts from `buf`, in order.
pub open spec fn drain_frames(buf: Seq<u8>) -> Seq<Seq<u8>>
    decreases buf.len(),
{
    if buf.len() < 2 {
        Seq::empty()
    } else if !len_in_range(declared_len(buf[1])) {
        Seq::empty()
    } else if buf.len() < declared_len(buf[1]) {
        Seq::empty()
    } else {
        seq![buf.take(declared_len(buf[1]))] + drain_frames(buf.skip(declared_len(buf[1])))
    }
}

/// The bytes a drain pass leaves buffered.
pub open spec fn drain_rest(buf: Seq<u8>) -> Seq<u8>
    decreases buf.len(),
{
    if buf.len() < 2 {
        buf
    } else if !len_in_range(declared_len(buf[1])) {
        Seq::empty()
    } else if buf.len() < declared_len(buf[1]) {
        buf
    } else {
        drain_rest(buf.skip(declared_len(buf[1])))
    }
}

/// Whether a drain pass over `buf` hits an implausible declared length and
/// discards the buffer.
pub open spec fn drain_desync(buf: Seq<u8>) -> bool
    decreases buf.len(),
{
    if buf.len() < 2 {
        false
    } else if !len_in_range(declared_len(buf[1])) {
        true
    } else if buf.len() < declared_len(buf[1]) {
        false
    } else {
        drain_desync(buf.skip(declared_len(buf[1])))
    }
}

/// A buffer on which a drain pass makes no progress: too short to hold a
/// length field, or waiting for the rest of a plausibly-sized frame.
pub open spec fn stalled(buf: Seq<u8>) -> bool {
    ||| buf.len() < 2
    ||| (len_in_range(declared_len(buf[1])) && buf.len() < declared_len(buf[1]))
}

/// On a stalled buffer a drain pass extracts nothing, keeps every byte, and
/// reports no desynchronization.
pub proof fn lemma_stalled_drain(buf: Seq<u8>)
    requires
        stalled(buf),
    ensures
        drain_frames(buf) == Seq::<Seq<u8>>::empty(),
        drain_rest(buf) == buf,
        !drain_desync(buf),
{
}

/// What a drain pass leaves buffered is itself stalled: draining is run to
/// completion, so no whole plausible frame stays behind.
pub proof fn lemma_drain_rest_stalled(buf: Seq<u8>)
    ensures
        stalled(drain_rest(buf)),
    decreases buf.len(),
{
    if buf.len() < 2 {
    } else if !len_in_range(declared_len(buf[1])) {
    } else if buf.len() < declared_len(buf[1]) {
    } else {
        lemma_drain_rest_stalled(buf.skip(declared_len(buf[1])));
    }
}

/// Desynchronization discards the whole buffer: nothing stays behind to
/// disturb bytes appended afterward.
pub proof fn lemma_desync_discards_all(buf: Seq<u8>)
    requires
        drain_desync(buf),
    ensures
        drain_rest(buf) == Seq::<u8>::empty(),
    decreases buf.len(),
{
    if buf.len() < 2 {
    } else if !len_in_range(declared_len(buf[1])) {
    } else if buf.len() < declared_len(buf[1]) {
    } else {
        lemma_desync_discards_all(buf.skip(declared_len(buf[1])));
    }
}

/// A desynchronized pass leaves nothing behind, so bytes appended afterward
/// are drained exactly as if they had arrived into a fresh buffer: earlier
/// garbage never disturbs later valid frames.
pub proof fn lemma_desync_recovery(a: Seq<u8>, b: Seq<u8>)
    requires
        drain_desync(a),
    ensures
        drain_rest(a) + b == b,
{
    lemma_desync_discards_all(a);
    assert(drain_rest(a) + b =~= b);
}

/// Chunk-boundary independence. Feeding `a` and then `b` extracts the same
/// frames, leaves the same bytes buffered, and reports desynchronization the
/// same way as feeding `a + b` in one chunk — provided draining `a` alone
/// hits no desynchronization. (On a desynchronizing stream the two feedings
/// differ by design: fed in one chunk, the bytes of `b` are discarded along
/// with the rest of the buffer.)
pub proof fn lemma_chunk_independence(a: Seq<u8>, b: Seq<u8>)
    requires
        !drain_desync(a),
    ensures
        drain_frames(a + b) == drain_frames(a) + drain_frames(drain_rest(a) + b),
        drain_rest(a + b) == drain_rest(drain_rest(a) + b),
        drain_desync(a + b) == drain_desync(drain_rest(a) + b),
    decreases a.len(),
{
    if a.len() < 2 {
        assert(drain_rest(a) + b =~= a + b);
        assert(drain_frames(a) + drain_frames(a + b) =~= drain_frames(a + b));
    } else {
        let exp = declared_len(a[1]);
        assert((a + b)[1] == a[1]);
        if !len_in_range(exp) {
            assert(drain_desync(a));
        } else if a.len() < exp {
            assert(drain_rest(a) + b =~= a + b);
            assert(drain_frames(a) + drain_frames(a + b) =~= drain_frames(a + b));
        } else {
            let tail = a.skip(exp);
            assert(!drain_desync(tail));
            lemma_chunk_independence(tail, b);
            assert((a + b).len() >= exp);
            assert((a + b).take(exp) =~= a.take(exp));
            assert((a + b).skip(exp) =~= tail + b);
            assert(drain_frames(a + b) == seq![a.take(exp)] + drain_frames(tail + b));
            assert(drain_frames(a) + drain_frames(drain_rest(a) + b) =~= seq![a.take(exp)]
                + (drain_frames(tail) + drain_frames(drain_rest(tail) + b)));
            assert(drain_frames(a + b) =~= drain_frames(a) + drain_frames(drain_rest(a) + b));
        }
    }
}

/// The frame buffer: owns the not-yet-framed bytes of the stream.
pub struct FrameBuffer {
    buf: Vec<u8>,
}

impl View for FrameBuffer {
    type V = Seq<u8>;

    closed spec fn view(&self) -> Seq<u8> {
        self.buf@
    }
}

impl FrameBuffer {
    /// The buffer never holds a whole plausible frame between calls:
    /// draining runs to completion inside `feed`.
    pub open spec fn wf(&self) -> bool {
        stalled(self@)
    }

    /// An empty buffer.
    pub fn new() -> (r: FrameBuffer)
        ensures
            r@ == Seq::<u8>::empty(),
            r.wf(),
    {
        FrameBuffer { buf: Vec::new() }
    }

    /// How many bytes wait in the buffer.
    pub fn buffered(&self) -> (n: usize)
        ensures
            n == self@.len(),
    {
        self.buf.len()
    }

    /// Appends one chunk of the stream and drains the buffer to completion.
    /// Returns the extracted candidate frames in stream order, and whether
    /// the pass discarded the buffer on an implausible declared length.
    pub fn feed(&mut self, bytes: &[u8]) -> (r: (Vec<Vec<u8>>, bool))
        ensures
            r.0.deep_view() == drain_frames(old(self)@ + bytes@),
            final(self)@ == drain_rest(old(self)@ + bytes@),
            r.1 == drain_desync(old(self)@ + bytes@),
            final(self).wf(),
    {
        let ghost buf0: Seq<u8> = self.buf@;
        let mut i: usize = 0;
        while i < bytes.len()
            invariant
                i <= bytes@.len(),
                self.buf@ == buf0 + bytes@.subrange(0, i as int),
            decreases bytes@.len() - i,
        {
            self.buf.push(*vstd::slice::slice_index_get(bytes, i));
            proof {
                assert(self.buf@ =~= buf0 + bytes@.subrange(0, i + 1 as int));
            }
            i = i + 1;
        }
        proof {
            assert(self.buf@ =~= buf0 + bytes@);
        }
        let ghost start: Seq<u8> = self.buf@;

        let mut frames: Vec<Vec<u8>> = Vec::new();
        let mut desync: bool = false;
        loop
            invariant_except_break
                desync == false,
                drain_frames(start) == frames.deep_view() + drain_frames(self.buf@),
                drain_rest(start) == drain_rest(self.buf@),
                drain_desync(start) == drain_desync(self.buf@),
            ensures
                frames.deep_view() == drain_frames(start),
                self.buf@ == drain_rest(start),
                desync == drain_desync(start),
                stalled(self.buf@),
            decreases self.buf@.len(),
        {
            proof {
                assert(frames.deep_view() + Seq::<Seq<u8>>::empty() =~= frames.deep_view());
            }
            if self.buf.len() < 2 {
                break;
            }
            let lf = self.buf[1];
            let exp = lf as usize + 2;
            if exp < MIN_FRAME_LEN || exp > MAX_FRAME_LEN {
                self.buf.clear();
                desync = true;
                break;
            }
            if self.buf.len() < exp {
                break;
            }
            let ghost before: Seq<u8> = self.buf@;
            let mut rest = self.buf.split_off(exp);
            core::mem::swap(&mut self.buf, &mut rest);
            let frame = rest;
            proof {
                assert(frame@ =~= before.take(exp as int));
                assert(self.buf@ =~= before.skip(exp as int));
            }
            let ghost frames_before: Seq<Seq<u8>> = frames.deep_view();
            frames.push(frame);
            proof {
                assert(frames.deep_view() =~~= frames_before.push(frame@));
                assert(drain_frames(before) == seq![before.take(exp as int)] + drain_frames(
                    before.skip(exp as int),
                ));
                assert(frames_before.push(frame@) + drain_frames(self.buf@) =~= frames_before + (
                seq![before.take(exp as int)] + drain_frames(before.skip(exp as int))));
            }
        }
        proof {
            assert(start == old(self)@ + bytes@);
        }
        (frames, desync)
    }
}

} // verus!
