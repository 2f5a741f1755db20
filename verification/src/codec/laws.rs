//! What is written is what is read.

use vstd::prelude::*;

use crate::buffer::bytes_of;
use crate::codec::decoder::{missing, parse, parsing_reads_no_further, FrameView, Parsed};
use crate::codec::encoder::{data_flags, ping_header, stream_header, update_flags};
use crate::header::{
    control_flags_round_trip, decoding_undoes_encoding, header_at, wire, ControlFlags, RawFlags,
    HEADER_LEN,
};
use crate::stream_id::StreamId;

verus! {

/// Whether a frame can be written: its IDs are valid and its data fits the
/// length field. The transport's own credit and barrier frames have no header
/// of their own.
pub open spec fn writable(f: FrameView) -> bool {
    match f {
        FrameView::Ping { payload, .. } => payload.stream_id.valid(),
        FrameView::WindowUpdate { stream_id, .. } => stream_id.valid(),
        FrameView::Data { stream_id, data, .. } => stream_id.valid() && data.len() <= u32::MAX,
        FrameView::Terminate => true,
        FrameView::SessionWindowUpdate { .. } => false,
        FrameView::ClearLink { .. } => false,
    }
}

/// The bytes that a frame is written as.
pub open spec fn frame_bytes(f: FrameView) -> Seq<u8> {
    match f {
        FrameView::Ping { payload, is_response } => wire(ping_header(payload, is_response)),
        FrameView::WindowUpdate { stream_id, flags, update } => wire(
            stream_header(stream_id, flags, RawFlags::WINDOW_UPDATE, update),
        ),
        FrameView::Data { stream_id, flags, data } => wire(
            stream_header(stream_id, flags, RawFlags::DATA, data.len() as u32),
        ) + data,
        _ => Seq::new(HEADER_LEN as nat, |i: int| 0u8),
    }
}

/// Whether a frame keeps to the frame limit.
pub open spec fn within_limit(f: FrameView, frame_limit: u32) -> bool {
    f matches FrameView::Data { data, .. } ==> data.len() <= frame_limit
}

/// A frame that is written and keeps to the limit is read back as itself,
/// whatever follows it.
pub proof fn written_frame_is_read_back(f: FrameView, more: Seq<u8>, frame_limit: u32)
    requires
        writable(f),
        within_limit(f, frame_limit),
    ensures
        parse(frame_bytes(f) + more, frame_limit) == (Parsed::Frame {
            frame: f,
            len: frame_bytes(f).len() as int,
        }),
{
    let b = frame_bytes(f);
    match f {
        FrameView::Ping { payload, is_response } => {
            decoding_undoes_encoding(ping_header(payload, is_response));
            assert(b.subrange(0, HEADER_LEN as int) =~= b);
        },
        FrameView::WindowUpdate { stream_id, flags, update } => {
            let h = stream_header(stream_id, flags, RawFlags::WINDOW_UPDATE, update);
            control_flags_round_trip(flags, RawFlags::WINDOW_UPDATE);
            decoding_undoes_encoding(h);
            assert(b.subrange(0, HEADER_LEN as int) =~= b);
        },
        FrameView::Data { stream_id, flags, data } => {
            let h = stream_header(stream_id, flags, RawFlags::DATA, data.len() as u32);
            control_flags_round_trip(flags, RawFlags::DATA);
            decoding_undoes_encoding(h);
            assert(b.subrange(0, HEADER_LEN as int) =~= wire(h));
            assert(b.subrange(HEADER_LEN as int, HEADER_LEN + data.len()) =~= data);
        },
        _ => {
            let h = header_at(b);
            assert(b.subrange(0, HEADER_LEN as int) =~= b);
            assert(b.subrange(0, 3)[0] == 0);
            crate::stream_id::id_has_its_value(0);
            assert(h.stream_id@ == 0);
            assert(h.len == 0);
        },
    }
    assert(parse(b, frame_limit) == (Parsed::Frame { frame: f, len: b.len() as int }));
    parsing_reads_no_further(b, more, frame_limit);
}

/// The bytes of several frames one after the other.
pub open spec fn all_bytes(fs: Seq<FrameView>) -> Seq<u8>
    decreases fs.len(),
{
    if fs.len() == 0 {
        Seq::empty()
    } else {
        frame_bytes(fs[0]) + all_bytes(fs.drop_first())
    }
}

/// All complete frames at the start of a run of bytes.
pub open spec fn all_frames(b: Seq<u8>, frame_limit: u32) -> Seq<FrameView>
    decreases b.len(),
{
    match parse(b, frame_limit) {
        Parsed::Frame { frame, len } => if 0 < len <= b.len() {
            seq![frame] + all_frames(b.subrange(len, b.len() as int), frame_limit)
        } else {
            Seq::empty()
        },
        _ => Seq::empty(),
    }
}

/// Any sequence of frames that is written back to back is read back in order,
/// frame by frame, with nothing left over.
pub proof fn written_frames_are_read_back(fs: Seq<FrameView>, frame_limit: u32)
    requires
        forall|i: int|
            0 <= i < fs.len() ==> writable(#[trigger] fs[i]) && within_limit(fs[i], frame_limit),
    ensures
        all_frames(all_bytes(fs), frame_limit) == fs,
    decreases fs.len(),
{
    if fs.len() == 0 {
        assert(all_frames(all_bytes(fs), frame_limit) =~= fs);
    } else {
        let rest = all_bytes(fs.drop_first());
        let b = all_bytes(fs);
        written_frame_is_read_back(fs[0], rest, frame_limit);
        written_frames_are_read_back(fs.drop_first(), frame_limit);
        let len = frame_bytes(fs[0]).len() as int;
        assert(len >= HEADER_LEN) by {
            parsing_reads_no_further(b, Seq::empty(), frame_limit);
        }
        assert(b.subrange(len, b.len() as int) =~= rest);
        assert(all_frames(b, frame_limit) =~= fs);
    }
}

/// A window update and data that are written as one item are read back as the
/// two frames, each with its share of the flags.
pub proof fn written_pair_is_read_back(
    stream_id: StreamId,
    flags: ControlFlags,
    update: u32,
    data: Seq<u8>,
    frame_limit: u32,
)
    requires
        stream_id.valid(),
        data.len() <= frame_limit,
    ensures
        all_frames(
            wire(stream_header(stream_id, update_flags(flags), RawFlags::WINDOW_UPDATE, update))
                + wire(
                stream_header(stream_id, data_flags(flags), RawFlags::DATA, data.len() as u32),
            ) + data,
            frame_limit,
        ) == seq![
            FrameView::WindowUpdate { stream_id, flags: update_flags(flags), update },
            FrameView::Data { stream_id, flags: data_flags(flags), data },
        ],
{
    let first = FrameView::WindowUpdate { stream_id, flags: update_flags(flags), update };
    let second = FrameView::Data { stream_id, flags: data_flags(flags), data };
    let fs = seq![first, second];
    written_frames_are_read_back(fs, frame_limit);
    reveal_with_fuel(all_bytes, 3);
    assert(fs.drop_first() =~= seq![second]);
    assert(fs.drop_first().drop_first() =~= Seq::<FrameView>::empty());
    assert(all_bytes(fs) =~= frame_bytes(first) + frame_bytes(second));
    assert(frame_bytes(first) + frame_bytes(second) =~= wire(
        stream_header(stream_id, update_flags(flags), RawFlags::WINDOW_UPDATE, update),
    ) + wire(stream_header(stream_id, data_flags(flags), RawFlags::DATA, data.len() as u32))
        + data);
}

/// A header of the `DATA` type whose length exceeds the limit is a fault, even
/// before any data has arrived.
pub proof fn oversized_data_is_refused(f: FrameView, frame_limit: u32)
    requires
        writable(f),
        f is Data,
        !within_limit(f, frame_limit),
    ensures
        parse(frame_bytes(f).subrange(0, HEADER_LEN as int), frame_limit) is Fault,
{
    if let FrameView::Data { stream_id, flags, data } = f {
        let h = stream_header(stream_id, flags, RawFlags::DATA, data.len() as u32);
        control_flags_round_trip(flags, RawFlags::DATA);
        decoding_undoes_encoding(h);
        let head = frame_bytes(f).subrange(0, HEADER_LEN as int);
        assert(head =~= wire(h));
        assert(head.subrange(0, HEADER_LEN as int) =~= wire(h));
    }
}

/// A decoder that is part-way into a frame asks for more, and never for anything
/// past the frame's end: whatever follows the last frame is left to whoever takes
/// the transport over.
pub proof fn reading_stops_at_the_frames_end(f: FrameView, taken: int, frame_limit: u32)
    requires
        writable(f),
        within_limit(f, frame_limit),
        0 <= taken < frame_bytes(f).len(),
    ensures
        parse(frame_bytes(f).take(taken), frame_limit) is Incomplete,
        0 < missing(frame_bytes(f).take(taken), frame_limit) <= frame_bytes(f).len() - taken,
{
    let b = frame_bytes(f).take(taken);
    if let FrameView::Data { stream_id, flags, data } = f {
        let h = stream_header(stream_id, flags, RawFlags::DATA, data.len() as u32);
        control_flags_round_trip(flags, RawFlags::DATA);
        decoding_undoes_encoding(h);
        if taken >= HEADER_LEN {
            assert(b.subrange(0, HEADER_LEN as int) =~= wire(h));
        }
    }
}

/// The frames that a decoder has read and the bytes that it holds of the next one,
/// once it was fed `pieces` one by one.
pub open spec fn reading(
    frames: Seq<FrameView>,
    seen: Seq<u8>,
    pieces: Seq<Seq<u8>>,
    frame_limit: u32,
) -> (Seq<FrameView>, Seq<u8>)
    decreases pieces.len(),
{
    if pieces.len() == 0 {
        (frames, seen)
    } else {
        let all = seen + pieces[0];
        match parse(all, frame_limit) {
            Parsed::Frame { frame, .. } => reading(
                frames.push(frame),
                Seq::empty(),
                pieces.drop_first(),
                frame_limit,
            ),
            _ => reading(frames, all, pieces.drop_first(), frame_limit),
        }
    }
}

/// Whether each piece has something in it, and no more than the decoder asks for
/// by then.
pub open spec fn fitting(seen: Seq<u8>, pieces: Seq<Seq<u8>>, frame_limit: u32) -> bool
    decreases pieces.len(),
{
    pieces.len() > 0 ==> {
        let all = seen + pieces[0];
        &&& 0 < pieces[0].len() <= missing(seen, frame_limit)
        &&& match parse(all, frame_limit) {
            Parsed::Frame { .. } => fitting(Seq::empty(), pieces.drop_first(), frame_limit),
            _ => fitting(all, pieces.drop_first(), frame_limit),
        }
    }
}

/// The same from the middle of a frame.
proof fn frames_are_read_on(
    done: Seq<FrameView>,
    seen: Seq<u8>,
    fs: Seq<FrameView>,
    last: FrameView,
    k: int,
    pieces: Seq<Seq<u8>>,
    frame_limit: u32,
)
    requires
        forall|i: int|
            0 <= i < fs.len() ==> writable(#[trigger] fs[i]) && within_limit(fs[i], frame_limit),
        writable(last),
        within_limit(last, frame_limit),
        0 <= k < frame_bytes(last).len(),
        seen + bytes_of(pieces) == all_bytes(fs) + frame_bytes(last).take(k),
        fs.len() > 0 ==> seen.len() < frame_bytes(fs[0]).len(),
        fitting(seen, pieces, frame_limit),
    ensures
        reading(done, seen, pieces, frame_limit) == (done + fs, frame_bytes(last).take(k)),
    decreases pieces.len(),
{
    let tail = frame_bytes(last).take(k);
    if pieces.len() == 0 {
        assert(seen =~= all_bytes(fs) + tail);
        if fs.len() > 0 {
            assert(all_bytes(fs).len() >= frame_bytes(fs[0]).len());
        }
        assert(seen =~= tail);
        assert(done + fs =~= done);
    } else {
        let all = seen + pieces[0];
        let rest = pieces.drop_first();
        assert(all + bytes_of(rest) =~= all_bytes(fs) + tail);
        if fs.len() > 0 {
            let b = frame_bytes(fs[0]);
            let taken = seen.len() as int;
            assert(all_bytes(fs) =~= b + all_bytes(fs.drop_first()));
            assert(seen =~= b.take(taken)) by {
                assert forall|i: int| 0 <= i < taken implies seen[i] == b[i] by {
                    assert(seen[i] == (all + bytes_of(rest))[i]);
                    assert(b[i] == (all_bytes(fs) + tail)[i]);
                }
            }
            reading_stops_at_the_frames_end(fs[0], taken, frame_limit);
            assert(all =~= b.take(all.len() as int)) by {
                assert forall|i: int| 0 <= i < all.len() implies all[i] == b[i] by {
                    assert(all[i] == (all + bytes_of(rest))[i]);
                    assert(b[i] == (all_bytes(fs) + tail)[i]);
                }
            }
            if all.len() == b.len() {
                assert(all =~= b);
                written_frame_is_read_back(fs[0], Seq::empty(), frame_limit);
                assert(b + Seq::<u8>::empty() =~= b);
                let later = fs.drop_first();
                assert(Seq::<u8>::empty() + bytes_of(rest) =~= all_bytes(later) + tail) by {
                    assert((all + bytes_of(rest)).skip(b.len() as int) =~= bytes_of(rest));
                    assert((all_bytes(fs) + tail).skip(b.len() as int) =~= all_bytes(later)
                        + tail);
                }
                if later.len() > 0 {
                    written_frame_is_read_back(later[0], Seq::empty(), frame_limit);
                    parsing_reads_no_further(
                        frame_bytes(later[0]) + Seq::empty(),
                        Seq::empty(),
                        frame_limit,
                    );
                }
                assert forall|i: int| 0 <= i < later.len() implies writable(#[trigger] later[i])
                    && within_limit(later[i], frame_limit) by {
                    assert(later[i] == fs[i + 1]);
                }
                frames_are_read_on(
                    done.push(fs[0]),
                    Seq::empty(),
                    later,
                    last,
                    k,
                    rest,
                    frame_limit,
                );
                assert(done.push(fs[0]) + later =~= done + fs);
            } else {
                reading_stops_at_the_frames_end(fs[0], all.len() as int, frame_limit);
                frames_are_read_on(done, all, fs, last, k, rest, frame_limit);
            }
        } else {
            assert(all_bytes(fs) + tail =~= tail);
            assert(all =~= frame_bytes(last).take(all.len() as int)) by {
                assert forall|i: int| 0 <= i < all.len() implies all[i] == frame_bytes(last)[i] by {
                    assert(all[i] == (all + bytes_of(rest))[i]);
                }
            }
            reading_stops_at_the_frames_end(last, all.len() as int, frame_limit);
            frames_are_read_on(done, all, fs, last, k, rest, frame_limit);
        }
    }
}

/// Frames that are written back to back are read back in order whatever the pieces
/// in which they arrive, and what is left of a frame that was cut short is what a
/// decoder still holds: nothing exactly where the flow ended between frames.
pub proof fn frames_may_arrive_in_any_pieces(
    fs: Seq<FrameView>,
    last: FrameView,
    k: int,
    pieces: Seq<Seq<u8>>,
    frame_limit: u32,
)
    requires
        forall|i: int|
            0 <= i < fs.len() ==> writable(#[trigger] fs[i]) && within_limit(fs[i], frame_limit),
        writable(last),
        within_limit(last, frame_limit),
        0 <= k < frame_bytes(last).len(),
        bytes_of(pieces) == all_bytes(fs) + frame_bytes(last).take(k),
        fitting(Seq::empty(), pieces, frame_limit),
    ensures
        reading(Seq::empty(), Seq::empty(), pieces, frame_limit) == (fs, frame_bytes(last).take(k)),
        frame_bytes(last).take(k).len() == 0 <==> k == 0,
{
    if fs.len() > 0 {
        written_frame_is_read_back(fs[0], Seq::empty(), frame_limit);
        parsing_reads_no_further(frame_bytes(fs[0]) + Seq::empty(), Seq::empty(), frame_limit);
    }
    assert(Seq::<u8>::empty() + bytes_of(pieces) =~= bytes_of(pieces));
    frames_are_read_on(Seq::empty(), Seq::empty(), fs, last, k, pieces, frame_limit);
    assert(Seq::<FrameView>::empty() + fs =~= fs);
}

} // verus!
