//! The decoding pipeline: frame buffer, validator and payload decoder run
//! in order over each chunk of the stream.
//!
//! Every frame the buffer extracts produces exactly one event — a decoded
//! record, a checksum error, a truncated payload, or an unknown type — and a
//! pass that discards a desynchronized buffer produces one discard event, so
//! the caller sees the fate of every byte.

use vstd::prelude::*;
use crate::buffer::{drain_desync, drain_frames, drain_rest, stalled, FrameBuffer};
use crate::decode::{
    decode, decode_record, decode_spec, known_tag, payload_of, required_payload_len,
    DecodedRecord, DecodeOutcome,
};
use crate::frame::{copy_range, encode_spec, frame_valid, lemma_encode_valid, validate};

verus! {

/// One event handed to the record sink, carrying the raw frame where one
/// exists.
pub enum Event {
    /// The frame validated and decoded.
    Record { record: DecodedRecord },
    /// The frame's checksum byte did not match; the frame was discarded.
    ChecksumError { frame: Vec<u8> },
    /// The frame validated but is shorter than its type's layout.
    TruncatedPayload { tag: u8, frame: Vec<u8> },
    /// The frame validated but its type tag has no layout here; normal for
    /// protocol extensions.
    UnknownType { tag: u8, frame: Vec<u8> },
    /// An implausible length field made the buffer discard its contents.
    DesyncDiscard,
}

/// The mathematical shape of an event: raw frames as byte sequences.
pub enum EventSpec {
    Record { record: DecodedRecord },
    ChecksumError { frame: Seq<u8> },
    TruncatedPayload { tag: u8, frame: Seq<u8> },
    UnknownType { tag: u8, frame: Seq<u8> },
    DesyncDiscard,
}

impl DeepView for Event {
    type V = EventSpec;

    open spec fn deep_view(&self) -> EventSpec {
        match self {
            Event::Record { record } => EventSpec::Record { record: *record },
            Event::ChecksumError { frame } => EventSpec::ChecksumError { frame: frame@ },
            Event::TruncatedPayload { tag, frame } => EventSpec::TruncatedPayload {
                tag: *tag,
                frame: frame@,
            },
            Event::UnknownType { tag, frame } => EventSpec::UnknownType {
                tag: *tag,
                frame: frame@,
            },
            Event::DesyncDiscard => EventSpec::DesyncDiscard,
        }
    }
}

/// The one event an extracted frame produces: a checksum mismatch is
/// reported as such and never decoded; a valid frame's decode outcome is
/// passed through.
pub open spec fn frame_event(f: Seq<u8>) -> EventSpec {
    if !frame_valid(f) {
        EventSpec::ChecksumError { frame: f }
    } else {
        match decode_spec(f) {
            DecodeOutcome::Record { record } => EventSpec::Record { record },
            DecodeOutcome::TruncatedPayload { tag } => EventSpec::TruncatedPayload { tag, frame: f },
            DecodeOutcome::UnknownType { tag } => EventSpec::UnknownType { tag, frame: f },
        }
    }
}

/// The events of a sequence of extracted frames, in order.
pub open spec fn events_of_frames(frames: Seq<Seq<u8>>) -> Seq<EventSpec> {
    frames.map_values(|f: Seq<u8>| frame_event(f))
}

/// Everything one drained buffer reports: one event per extracted frame,
/// then one discard event if the pass desynchronized.
pub open spec fn process_spec(input: Seq<u8>) -> Seq<EventSpec> {
    events_of_frames(drain_frames(input)) + if drain_desync(input) {
        seq![EventSpec::DesyncDiscard]
    } else {
        Seq::empty()
    }
}

/// A frame that fails validation is always reported as a checksum error and
/// never becomes a record.
pub proof fn lemma_invalid_frame_never_decoded(f: Seq<u8>)
    requires
        !frame_valid(f),
    ensures
        frame_event(f) == (EventSpec::ChecksumError { frame: f }),
        !(frame_event(f) is Record),
{
}

/// Chunk-boundary independence at the sink: the events of feeding `a` and
/// then `b` are, taken together, the events of feeding `a + b` in one chunk —
/// provided draining `a` alone hits no desynchronization. (Feeding the
/// buffered remainder of `a` together with `b` is exactly what `feed` does
/// on its next call.)
pub proof fn lemma_chunk_independence_events(a: Seq<u8>, b: Seq<u8>)
    requires
        !drain_desync(a),
    ensures
        process_spec(a + b) == process_spec(a) + process_spec(drain_rest(a) + b),
{
    crate::buffer::lemma_chunk_independence(a, b);
    let r = drain_rest(a) + b;
    assert(events_of_frames(drain_frames(a) + drain_frames(r)) =~~= events_of_frames(
        drain_frames(a),
    ) + events_of_frames(drain_frames(r)));
    if drain_desync(a + b) {
        assert(process_spec(a + b) =~~= process_spec(a) + process_spec(r));
    } else {
        assert(process_spec(a + b) =~~= process_spec(a) + process_spec(r));
    }
}

/// Round trip: a frame built around a payload with a correct checksum, fed
/// to an empty pipeline, is extracted whole, validates, and decodes to
/// exactly the record its type's layout reads from that payload.
pub proof fn lemma_encode_decode_round_trip(tag: u8, payload: Seq<u8>)
    requires
        known_tag(tag),
        required_payload_len(tag) <= payload.len() <= 60,
    ensures
        process_spec(encode_spec(tag, payload)) == seq![
            EventSpec::Record { record: decode_record(tag, payload) },
        ],
        drain_rest(encode_spec(tag, payload)) == Seq::<u8>::empty(),
{
    let f = encode_spec(tag, payload);
    lemma_encode_valid(tag, payload);
    assert(drain_frames(Seq::<u8>::empty()) =~= Seq::<Seq<u8>>::empty());
    assert(!drain_desync(Seq::<u8>::empty()));
    assert(drain_rest(Seq::<u8>::empty()) =~= Seq::<u8>::empty());
    assert(f.take(f.len() as int) =~= f);
    assert(f.skip(f.len() as int) =~= Seq::<u8>::empty());
    assert(drain_frames(f) =~= seq![f]);
    assert(!drain_desync(f));
    assert(payload_of(f) =~= payload);
    assert(frame_event(f) == (EventSpec::Record { record: decode_record(tag, payload) }));
    assert(events_of_frames(seq![f]) =~= seq![frame_event(f)]);
    assert(process_spec(f) =~= seq![EventSpec::Record { record: decode_record(tag, payload) }]);
}

/// Copies a byte vector.
fn clone_bytes(v: &Vec<u8>) -> (r: Vec<u8>)
    ensures
        r@ == v@,
{
    let r = copy_range(v.as_slice(), 0, v.len());
    proof {
        assert(v@.subrange(0, v@.len() as int) =~= v@);
    }
    r
}

/// The whole pipeline: an owned frame buffer and the validator and decoder
/// behind it. One instance per stream; independent streams use independent
/// instances.
pub struct Pipeline {
    buffer: FrameBuffer,
}

impl View for Pipeline {
    type V = Seq<u8>;

    closed spec fn view(&self) -> Seq<u8> {
        self.buffer@
    }
}

impl Pipeline {
    /// Between calls the buffer never holds a whole plausible frame.
    pub open spec fn wf(&self) -> bool {
        stalled(self@)
    }

    /// A pipeline with an empty buffer.
    pub fn new() -> (r: Pipeline)
        ensures
            r@ == Seq::<u8>::empty(),
            r.wf(),
    {
        Pipeline { buffer: FrameBuffer::new() }
    }

    /// How many bytes wait for the rest of their frame.
    pub fn buffered(&self) -> (n: usize)
        ensures
            n == self@.len(),
    {
        self.buffer.buffered()
    }

    /// Feeds one chunk of the stream and returns every event it completes:
    /// exactly the events of draining the buffered bytes followed by the
    /// chunk, in stream order.
    pub fn feed(&mut self, bytes: &[u8]) -> (events: Vec<Event>)
        ensures
            events.deep_view() == process_spec(old(self)@ + bytes@),
            final(self)@ == drain_rest(old(self)@ + bytes@),
            final(self).wf(),
    {
        let ghost input: Seq<u8> = self@ + bytes@;
        let (frames, desync) = self.buffer.feed(bytes);
        let ghost fs: Seq<Seq<u8>> = frames.deep_view();

        let mut events: Vec<Event> = Vec::new();
        let mut i: usize = 0;
        while i < frames.len()
            invariant
                i <= frames@.len(),
                fs == frames.deep_view(),
                fs == drain_frames(input),
                events.deep_view() == events_of_frames(fs.subrange(0, i as int)),
            decreases frames@.len() - i,
        {
            let frame: &Vec<u8> = &frames[i];
            proof {
                assert(frame@ == fs[i as int]);
            }
            let ghost events_before: Seq<EventSpec> = events.deep_view();
            if !validate(frame.as_slice()) {
                events.push(Event::ChecksumError { frame: clone_bytes(frame) });
            } else {
                match decode(frame.as_slice()) {
                    DecodeOutcome::Record { record } => {
                        events.push(Event::Record { record });
                    },
                    DecodeOutcome::TruncatedPayload { tag } => {
                        events.push(Event::TruncatedPayload { tag, frame: clone_bytes(frame) });
                    },
                    DecodeOutcome::UnknownType { tag } => {
                        events.push(Event::UnknownType { tag, frame: clone_bytes(frame) });
                    },
                }
            }
            proof {
                assert(events.deep_view() =~~= events_before.push(frame_event(fs[i as int])));
                assert(events.deep_view() =~~= events_of_frames(fs.subrange(0, i + 1 as int)));
            }
            i = i + 1;
        }
        proof {
            assert(fs.subrange(0, fs.len() as int) =~= fs);
        }
        if desync {
            let ghost events_before: Seq<EventSpec> = events.deep_view();
            events.push(Event::DesyncDiscard);
            proof {
                assert(events.deep_view() =~~= events_before.push(EventSpec::DesyncDiscard));
                assert(events.deep_view() =~~= process_spec(input));
            }
        } else {
            proof {
                assert(events.deep_view() + Seq::<EventSpec>::empty() =~= events.deep_view());
                assert(events.deep_view() =~~= process_spec(input));
            }
        }
        events
    }
}

} // verus!
