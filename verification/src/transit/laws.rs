//! What holds of two ends of a transit connection together.

use vstd::prelude::*;

use super::connection::{
    after_payload, data_wire, stamp_at, Parse, SenderClock, Step, TransitView, MAX_LAPS,
};
use super::frame::{
    decoded, frames_round_trip, Frame, TransitError, HEADER_LEN, MAX_PAYLOAD, TIMESTAMP_LEN,
};
use super::window::WindowView;
use crate::buffer::bytes_of;
use crate::stream_id::be32_bytes;
use crate::time::{saturated, TimeSpan, Timestamp};

verus! {

/// One frame as it goes on the wire, with what belongs to it.
#[verifier::ext_equal]
pub ghost struct Item {
    /// The header.
    pub frame: Frame,
    /// The timestamp that follows a `DATA` header.
    pub stamp: u32,
    /// The payload that follows the timestamp.
    pub payload: Seq<u8>,
}

impl Item {
    /// The header can carry the frame, and announces the payload that follows.
    pub open spec fn valid(self) -> bool {
        &&& self.frame.valid()
        &&& match self.frame {
            Frame::Data { len, .. } => self.payload.len() == len,
            _ => self.payload.len() == 0,
        }
    }

    /// The credit that the frame grants.
    pub open spec fn granted(self) -> nat {
        match self.frame {
            Frame::WindowUpdate(granted) => granted as nat,
            _ => 0,
        }
    }

    /// The bytes that go on the wire.
    pub open spec fn wire(self) -> Seq<u8> {
        if self.frame is Data {
            self.frame.wire() + be32_bytes(self.stamp as int) + self.payload
        } else {
            self.frame.wire()
        }
    }
}

/// The bytes of a run of frames.
pub open spec fn wire_of(items: Seq<Item>) -> Seq<u8>
    decreases items.len(),
{
    if items.len() == 0 {
        Seq::empty()
    } else {
        items[0].wire() + wire_of(items.drop_first())
    }
}

/// The payload of a run of frames.
pub open spec fn payload_of(items: Seq<Item>) -> Seq<u8>
    decreases items.len(),
{
    if items.len() == 0 {
        Seq::empty()
    } else {
        items[0].payload + payload_of(items.drop_first())
    }
}

/// The credit that a run of frames grants.
pub open spec fn granted_of(items: Seq<Item>) -> nat
    decreases items.len(),
{
    if items.len() == 0 {
        0
    } else {
        items[0].granted() + granted_of(items.drop_first())
    }
}

/// The part of a connection that framing is about.
#[verifier::ext_equal]
pub ghost struct Framing {
    /// Where the parser is.
    pub parse: Parse,
    /// Read, not yet parsed.
    pub raw: Seq<u8>,
    /// Parsed payload.
    pub payload: Seq<u8>,
    /// Credit to send.
    pub credit: u64,
}

impl TransitView {
    /// The part of the connection that framing is about.
    pub open spec fn framing(self) -> Framing {
        Framing {
            parse: self.parse,
            raw: self.raw,
            payload: self.payload,
            credit: self.credit.available,
        }
    }
}

impl Framing {
    /// One step of the parser, a payload byte at a time.
    pub open spec fn next(self) -> Option<Framing> {
        match self.parse {
            Parse::Header => if self.raw.len() < HEADER_LEN {
                None
            } else {
                match decoded(self.raw.take(HEADER_LEN as int)) {
                    Err(_) => None,
                    Ok(Frame::Data { len, .. }) => Some(
                        Framing {
                            parse: Parse::Timestamp(len),
                            raw: self.raw.skip(HEADER_LEN as int),
                            ..self
                        },
                    ),
                    Ok(Frame::WindowUpdate(granted)) => Some(
                        Framing {
                            raw: self.raw.skip(HEADER_LEN as int),
                            credit: saturated(self.credit + granted),
                            ..self
                        },
                    ),
                    Ok(_) => Some(Framing { raw: self.raw.skip(HEADER_LEN as int), ..self }),
                }
            },
            Parse::Timestamp(len) => if self.raw.len() < TIMESTAMP_LEN {
                None
            } else {
                Some(
                    Framing {
                        parse: Parse::Payload(len),
                        raw: self.raw.skip(TIMESTAMP_LEN as int),
                        ..self
                    },
                )
            },
            Parse::Payload(remaining) => if remaining == 0 {
                Some(Framing { parse: Parse::Header, ..self })
            } else if self.raw.len() == 0 {
                None
            } else {
                Some(
                    Framing {
                        parse: after_payload(remaining - 1),
                        raw: self.raw.skip(1),
                        payload: self.payload.push(self.raw[0]),
                        ..self
                    },
                )
            },
        }
    }

    /// What the parser has made of the bytes once it needs more.
    pub open spec fn run(self) -> Framing
        decreases
                self.raw.len(),
                if self.parse == Parse::Payload(0) {
                    1int
                } else {
                    0
                },
    {
        match self.next() {
            Some(next) => next.run(),
            None => self,
        }
    }

    /// The same with more bytes read.
    pub open spec fn fed(self, bytes: Seq<u8>) -> Framing {
        Framing { raw: self.raw + bytes, ..self }
    }
}

/// A run of payload bytes may be taken at once.
proof fn payload_is_taken_at_once(f: Framing, remaining: int, take: int)
    requires
        f.parse == Parse::Payload(remaining as u32),
        0 < remaining <= u32::MAX,
        0 < take <= remaining,
        take <= f.raw.len(),
    ensures
        f.run() == (Framing {
            parse: after_payload(remaining - take),
            raw: f.raw.skip(take),
            payload: f.payload + f.raw.take(take),
            ..f
        }).run(),
    decreases take,
{
    let next = f.next().unwrap();
    assert(f.run() == next.run());
    if take == 1 {
        assert(f.payload.push(f.raw[0]) =~= f.payload + f.raw.take(1));
    } else {
        payload_is_taken_at_once(next, remaining - 1, take - 1);
        assert(next.raw.skip(take - 1) =~= f.raw.skip(take));
        assert(next.payload + next.raw.take(take - 1) =~= f.payload + f.raw.take(take));
    }
}

/// As long as the connection does not fail, what it parses depends on nothing but
/// the bytes: not on the clock, the window or the probe.
pub proof fn parsing_follows_the_framing(v: TransitView, now: Timestamp)
    requires
        v.parsed(now).1 is Ok,
    ensures
        v.parsed(now).0.framing() == v.framing().run(),
    decreases
            v.raw.len(),
            if v.parse == Parse::Payload(0) {
                1int
            } else {
                0
            },
{
    let f = v.framing();
    match v.step(now) {
        Step::Wait => {
            assert(f.next() is None);
        },
        Step::Fail(_, _) => {},
        Step::Go(next) => {
            parsing_follows_the_framing(next, now);
            match v.parse {
                Parse::Payload(remaining) => {
                    if remaining > 0 {
                        let take = if remaining < v.raw.len() {
                            remaining as int
                        } else {
                            v.raw.len() as int
                        };
                        payload_is_taken_at_once(f, remaining as int, take);
                        assert(next.framing() =~= (Framing {
                            parse: after_payload(remaining - take),
                            raw: f.raw.skip(take),
                            payload: f.payload + f.raw.take(take),
                            ..f
                        }));
                    } else {
                        assert(f.next() == Some(next.framing()));
                    }
                },
                _ => {
                    assert(f.next() == Some(next.framing()));
                },
            }
        },
    }
}

/// A frame may be split across reads anywhere: parsing what came first and then
/// the rest gives the same as parsing all of it at once.
pub proof fn reads_may_split_frames_anywhere(f: Framing, first: Seq<u8>, second: Seq<u8>)
    ensures
        f.fed(first + second).run() == f.fed(first).run().fed(second).run(),
    decreases
            f.raw.len() + first.len(),
            if f.parse == Parse::Payload(0) {
                1int
            } else {
                0
            },
{
    let a = f.fed(first);
    let all = f.fed(first + second);
    assert(all.raw =~= a.raw + second);
    match a.next() {
        Some(next) => {
            assert(all.next() == Some(next.fed(second))) by {
                match a.parse {
                    Parse::Header => {
                        assert(all.raw.take(HEADER_LEN as int) =~= a.raw.take(HEADER_LEN as int));
                        assert(all.raw.skip(HEADER_LEN as int) =~= a.raw.skip(HEADER_LEN as int)
                            + second);
                    },
                    Parse::Timestamp(_) => {
                        assert(all.raw.skip(TIMESTAMP_LEN as int) =~= a.raw.skip(
                            TIMESTAMP_LEN as int,
                        ) + second);
                    },
                    Parse::Payload(remaining) => {
                        if remaining > 0 {
                            assert(all.raw.skip(1) =~= a.raw.skip(1) + second);
                        }
                    },
                }
            }
            assert(next.fed(Seq::empty()) =~= next);
            assert(Seq::<u8>::empty() + second =~= second);
            reads_may_split_frames_anywhere(next, Seq::empty(), second);
        },
        None => {},
    }
}

/// One frame at the front is parsed into its payload and what it grants.
proof fn frame_is_parsed(item: Item, rest: Seq<u8>, payload: Seq<u8>, credit: u64)
    requires
        item.valid(),
    ensures
        (Framing { parse: Parse::Header, raw: item.wire() + rest, payload, credit }).run()
            == (Framing {
            parse: Parse::Header,
            raw: rest,
            payload: payload + item.payload,
            credit: saturated(credit + item.granted()),
        }).run(),
{
    let f = Framing { parse: Parse::Header, raw: item.wire() + rest, payload, credit };
    frames_round_trip(item.frame);
    assert(f.raw.take(HEADER_LEN as int) =~= item.frame.wire());
    let after = f.next().unwrap();
    assert(f.run() == after.run());
    if item.frame is Data {
        assert(after.raw =~= be32_bytes(item.stamp as int) + item.payload + rest);
        let body = after.next().unwrap();
        assert(after.run() == body.run());
        assert(body.raw =~= item.payload + rest);
        let len = item.payload.len() as int;
        if len == 0 {
            assert(body.run() == body.next().unwrap().run());
            assert(body.raw =~= rest);
            assert(payload + item.payload =~= payload);
        } else {
            payload_is_taken_at_once(body, len, len);
            assert(body.raw.skip(len) =~= rest);
            assert(body.raw.take(len) =~= item.payload);
        }
    } else {
        assert(after.raw =~= rest);
        assert(payload + item.payload =~= payload);
    }
}

/// Payload comes through unchanged and in order: whatever frames one end writes,
/// the parser of the other makes exactly their payload of them, and the credit
/// that they grant is added to what there is.
pub proof fn payload_comes_through_unchanged(items: Seq<Item>, payload: Seq<u8>, credit: u64)
    requires
        forall|i: int| 0 <= i < items.len() ==> (#[trigger] items[i]).valid(),
    ensures
        (Framing { parse: Parse::Header, raw: wire_of(items), payload, credit }).run() == (Framing {
            parse: Parse::Header,
            raw: Seq::empty(),
            payload: payload + payload_of(items),
            credit: saturated(credit + granted_of(items)),
        }),
    decreases items.len(),
{
    if items.len() == 0 {
        assert(payload + payload_of(items) =~= payload);
    } else {
        let rest = items.drop_first();
        let granted = saturated(credit + items[0].granted());
        frame_is_parsed(items[0], wire_of(rest), payload, credit);
        payload_comes_through_unchanged(rest, payload + items[0].payload, granted);
        assert(payload + items[0].payload + payload_of(rest) =~= payload + payload_of(items));
    }
}

/// What the parser makes of the bytes is the same a step later, whatever follows.
proof fn steps_keep_the_end(v: TransitView, now: Timestamp, rest: Seq<u8>)
    requires
        v.step(now) is Go,
    ensures
        v.step(now)->Go_0.framing().fed(rest).run() == v.framing().fed(rest).run(),
{
    let next = v.step(now)->Go_0;
    let f = v.framing().fed(rest);
    let g = next.framing().fed(rest);
    match v.parse {
        Parse::Header => {
            assert(f.raw.take(HEADER_LEN as int) =~= v.raw.take(HEADER_LEN as int));
            assert(f.raw.skip(HEADER_LEN as int) =~= v.raw.skip(HEADER_LEN as int) + rest);
            assert(f.next() == Some(g));
        },
        Parse::Timestamp(_) => {
            assert(f.raw.skip(TIMESTAMP_LEN as int) =~= v.raw.skip(TIMESTAMP_LEN as int) + rest);
            assert(f.next() == Some(g));
        },
        Parse::Payload(remaining) => {
            if remaining > 0 {
                let take = if remaining < v.raw.len() {
                    remaining as int
                } else {
                    v.raw.len() as int
                };
                payload_is_taken_at_once(f, remaining as int, take);
                assert(f.raw.skip(take) =~= v.raw.skip(take) + rest);
                assert(f.raw.take(take) =~= v.raw.take(take));
            } else {
                assert(f.next() == Some(g));
            }
        },
    }
}

/// The parser takes no payload back.
proof fn payload_only_grows(f: Framing)
    ensures
        f.payload.len() <= f.run().payload.len(),
    decreases
            f.raw.len(),
            if f.parse == Parse::Payload(0) {
                1int
            } else {
                0
            },
{
    match f.next() {
        Some(next) => payload_only_grows(next),
        None => {},
    }
}

/// Every payload byte is counted against the window, and what parses is within it.
proof fn payload_is_counted(v: TransitView, now: Timestamp)
    requires
        v.parsed(now).1 is Ok,
        !v.window.overdrawn(),
    ensures
        !v.parsed(now).0.window.overdrawn(),
        v.payload.len() <= v.parsed(now).0.payload.len(),
        v.parsed(now).0.window.granted_total == v.window.granted_total,
        v.parsed(now).0.window.received_total == saturated(
            v.window.received_total + v.parsed(now).0.payload.len() - v.payload.len(),
        ),
    decreases
            v.raw.len(),
            if v.parse == Parse::Payload(0) {
                1int
            } else {
                0
            },
{
    match v.step(now) {
        Step::Go(next) => payload_is_counted(next, now),
        _ => {},
    }
}

/// Bytes that make up whole frames within the window are refused for nothing but
/// a probe frame.
proof fn whole_frames_are_parsed(v: TransitView, now: Timestamp, rest: Seq<u8>, end: Framing)
    requires
        v.framing().fed(rest).run() == end,
        end.raw.len() == 0,
        v.window.received_total + end.payload.len() - v.payload.len() <= v.window.granted_total,
    ensures
        match v.parsed(now).1 {
            Ok(_) => v.parsed(now).0.framing().fed(rest).run() == end,
            Err(error) => error is TwoInitiators,
        },
    decreases
            v.raw.len(),
            if v.parse == Parse::Payload(0) {
                1int
            } else {
                0
            },
{
    match v.step(now) {
        Step::Wait => {},
        Step::Go(next) => {
            steps_keep_the_end(v, now, rest);
            payload_only_grows(next.framing().fed(rest));
            whole_frames_are_parsed(next, now, rest, end);
        },
        Step::Fail(failed, error) => {
            let f = v.framing().fed(rest);
            match v.parse {
                Parse::Header => {
                    assert(f.raw.take(HEADER_LEN as int) =~= v.raw.take(HEADER_LEN as int));
                    if decoded(v.raw.take(HEADER_LEN as int)) is Err {
                        assert(f.next() is None);
                    }
                },
                Parse::Timestamp(_) => {},
                Parse::Payload(remaining) => {
                    let take = failed.payload.len() - v.payload.len();
                    payload_is_taken_at_once(f, remaining as int, take);
                    payload_only_grows(
                        Framing {
                            parse: after_payload(remaining - take),
                            raw: f.raw.skip(take),
                            payload: f.payload + f.raw.take(take),
                            ..f
                        },
                    );
                },
            }
        },
    }
}

/// The connection once `pieces` have been read one by one, each at its time, as
/// far as it does not fail.
pub open spec fn receiving(v: TransitView, pieces: Seq<Seq<u8>>, times: Seq<Timestamp>) -> (
    TransitView,
    Result<(), TransitError>,
)
    decreases pieces.len(),
{
    if pieces.len() == 0 {
        (v, Ok(()))
    } else {
        let (next, result) = v.fed(pieces[0]).parsed(times[0]);
        if result is Ok {
            receiving(next, pieces.drop_first(), times.drop_first())
        } else {
            (next, result)
        }
    }
}

/// What [`payload_arrives_in_any_pieces`] says of a connection that has read the
/// beginning of the bytes.
proof fn payload_arrives_piece_by_piece(
    v: TransitView,
    pieces: Seq<Seq<u8>>,
    times: Seq<Timestamp>,
    end: Framing,
)
    requires
        v.framing().fed(bytes_of(pieces)).run() == end,
        v.framing().next() is None,
        end.raw.len() == 0,
        !v.window.overdrawn(),
    ensures
        ({
            let (after, result) = receiving(v, pieces, times);
            let total = v.window.received_total + end.payload.len() - v.payload.len();
            &&& result is Ok ==> after.framing() == end
            &&& total <= v.window.granted_total ==> result is Ok || result == Err::<(), _>(
                TransitError::TwoInitiators,
            )
            &&& v.window.granted_total < total && v.window.granted_total < u64::MAX
                ==> result is Err
        }),
    decreases pieces.len(),
{
    let f = v.framing();
    if pieces.len() == 0 {
        assert(f.fed(bytes_of(pieces)) =~= f);
        assert(f.run() == f);
    } else {
        let rest = bytes_of(pieces.drop_first());
        let fed = v.fed(pieces[0]);
        let (next, result) = fed.parsed(times[0]);
        assert(fed.framing().fed(rest) =~= f.fed(bytes_of(pieces)));
        if v.window.received_total + end.payload.len() - v.payload.len() <= v.window.granted_total {
            whole_frames_are_parsed(fed, times[0], rest, end);
        }
        if result is Ok {
            parsing_follows_the_framing(fed, times[0]);
            reads_may_split_frames_anywhere(f, pieces[0], rest);
            assert(fed.framing() =~= f.fed(pieces[0]));
            runs_stop(fed.framing());
            payload_is_counted(fed, times[0]);
            payload_only_grows(next.framing().fed(rest));
            payload_arrives_piece_by_piece(next, pieces.drop_first(), times.drop_first(), end);
        }
    }
}

/// The parser stops where it needs more.
proof fn runs_stop(f: Framing)
    ensures
        f.run().next() is None,
    decreases
            f.raw.len(),
            if f.parse == Parse::Payload(0) {
                1int
            } else {
                0
            },
{
    match f.next() {
        Some(next) => runs_stop(next),
        None => {},
    }
}

/// Frames that arrive in whatever pieces are refused for nothing but more payload
/// than was granted or a probe frame, the former always, and otherwise give
/// exactly their payload, in order, and the credit that they grant.
pub proof fn payload_arrives_in_any_pieces(
    v: TransitView,
    items: Seq<Item>,
    pieces: Seq<Seq<u8>>,
    times: Seq<Timestamp>,
)
    requires
        v.parse == Parse::Header,
        v.raw.len() == 0,
        !v.window.overdrawn(),
        forall|i: int| 0 <= i < items.len() ==> (#[trigger] items[i]).valid(),
        bytes_of(pieces) == wire_of(items),
    ensures
        ({
            let (after, result) = receiving(v, pieces, times);
            let total = v.window.received_total + payload_of(items).len();
            &&& result is Ok ==> after.framing() == (Framing {
                parse: Parse::Header,
                raw: Seq::empty(),
                payload: v.payload + payload_of(items),
                credit: saturated(v.credit.available + granted_of(items)),
            })
            &&& total <= v.window.granted_total ==> result is Ok || result == Err::<(), _>(
                TransitError::TwoInitiators,
            )
            // The totals are counted up to what they can hold.
            &&& v.window.granted_total < total && v.window.granted_total < u64::MAX
                ==> result is Err
        }),
{
    payload_comes_through_unchanged(items, v.payload, v.credit.available);
    let end = Framing {
        parse: Parse::Header,
        raw: Seq::empty(),
        payload: v.payload + payload_of(items),
        credit: saturated(v.credit.available + granted_of(items)),
    };
    assert(v.framing().fed(bytes_of(pieces)) =~= (Framing {
        parse: Parse::Header,
        raw: wire_of(items),
        payload: v.payload,
        credit: v.credit.available,
    }));
    payload_arrives_piece_by_piece(v, pieces, times, end);
}

/// Adding a frame at the end of a run adds its bytes and its payload.
proof fn runs_are_extended(items: Seq<Item>, item: Item)
    ensures
        wire_of(items.push(item)) == wire_of(items) + item.wire(),
        payload_of(items.push(item)) == payload_of(items) + item.payload,
    decreases items.len(),
{
    let all = items.push(item);
    if items.len() == 0 {
        assert(all.drop_first() =~= Seq::<Item>::empty());
        assert(wire_of(all.drop_first()).len() == 0);
        assert(payload_of(all.drop_first()).len() == 0);
        assert(wire_of(all) =~= wire_of(items) + item.wire());
        assert(payload_of(all) =~= payload_of(items) + item.payload);
    } else {
        assert(all.drop_first() =~= items.drop_first().push(item));
        runs_are_extended(items.drop_first(), item);
        assert(wire_of(all) =~= wire_of(items) + item.wire());
        assert(payload_of(all) =~= payload_of(items) + item.payload);
    }
}

/// What a write stages is one `DATA` frame, carrying the front of what the
/// application wrote, no more of it than a frame may carry and the credit covers.
pub proof fn writes_stage_whole_frames(
    v: TransitView,
    items: Seq<Item>,
    bytes: Seq<u8>,
    now: Timestamp,
)
    requires
        v.out == wire_of(items),
        bytes.len() > 0,
        !v.blocked(),
    ensures
        ({
            let len = v.frame_len(bytes.len() as int);
            let item = Item {
                frame: Frame::Data { len: len as u32, starved: v.credit.reports(now) },
                stamp: stamp_at(v.started, now),
                payload: bytes.take(len),
            };
            let after = v.writing(bytes, now);
            &&& 0 < len <= MAX_PAYLOAD
            &&& len <= bytes.len()
            &&& len <= v.credit.available
            &&& item.valid()
            &&& after.out == wire_of(items.push(item))
            &&& payload_of(items.push(item)) == payload_of(items) + bytes.take(len)
            &&& after.credit.available == v.credit.available - len
        }),
{
    let len = v.frame_len(bytes.len() as int);
    let item = Item {
        frame: Frame::Data { len: len as u32, starved: v.credit.reports(now) },
        stamp: stamp_at(v.started, now),
        payload: bytes.take(len),
    };
    runs_are_extended(items, item);
    assert(data_wire(v.credit.reports(now), stamp_at(v.started, now), bytes.take(len))
        =~= item.wire());
}

/// After a shutdown nothing more goes on the wire, and no probe is started.
pub proof fn nothing_is_sent_after_a_shutdown(v: TransitView, paced: Option<u32>, now: Timestamp)
    requires
        v.shut_down,
    ensures
        v.serviced(now).granting(paced).out.len() == 0,
        v.serviced(now).granting(paced).probe == v.probe,
        v.serviced(now).granting(paced).payload == v.payload,
{
}

/// The end of the peer's stream ends an exchange without counting it as given up
/// on, and none is started again.
pub proof fn the_peers_end_ends_the_exchange(v: TransitView, now: Timestamp)
    ensures
        !v.ended().probe.pausing(),
        v.ended().probe.abandoned == v.probe.abandoned,
        v.ended().probe.opens(now) is None,
        v.ended().probe.advanced(now) == v.ended().probe,
{
}

/// A wrap of the sender's timestamps is not a jump: a clock that shows the
/// sender's time goes on showing it, as long as two frames are less than a lap
/// apart.
pub proof fn sender_clock_survives_a_wrap(clock: SenderClock, sent: int)
    requires
        clock.shows() <= sent < clock.shows() + 0x1_0000_0000,
        clock.laps < MAX_LAPS,
    ensures
        clock.read((sent % 0x1_0000_0000) as u32).shows() == sent,
{
}

/// The timestamps of a sender are read back as the microseconds of its clock.
pub proof fn timestamps_are_read_back(
    clock: SenderClock,
    started: Timestamp,
    now: Timestamp,
)
    requires
        started.nanos <= now.nanos,
        clock.laps < MAX_LAPS,
        clock.shows() <= (now.nanos - started.nanos) / 1_000 < clock.shows() + 0x1_0000_0000,
    ensures
        clock.read(stamp_at(started, now)).shows() == (now.nanos - started.nanos) / 1_000,
{
}

/// One direction of a connection: the sender's credit, the receiver's window, and
/// what is on the way between them.
pub ghost struct Link {
    /// Credit the sender holds.
    pub credit: int,
    /// Payload on its way to the receiver.
    pub payload_on_the_way: int,
    /// Credit on its way to the sender.
    pub credit_on_the_way: int,
    /// The receiver's window.
    pub window: WindowView,
}

/// What can happen to a [`Link`].
pub ghost enum LinkEvent {
    /// The sender writes a frame of this length.
    Write(int),
    /// This much payload arrives.
    Arrive(u32),
    /// The receiver returns what was freed.
    Grant,
    /// This much credit arrives.
    Credit(int),
}

impl Link {
    /// Every byte of credit ever granted is in one place.
    pub open spec fn accounted(self) -> bool {
        &&& self.credit >= 0
        &&& self.payload_on_the_way >= 0
        &&& self.credit_on_the_way >= 0
        &&& self.credit + self.credit_on_the_way + self.payload_on_the_way
            + self.window.received_total == self.window.granted_total
    }

    /// Whether `event` can happen to two ends that keep to the protocol: a write
    /// spends no more than the credit held, and what arrives was on its way.
    pub open spec fn allows(self, event: LinkEvent) -> bool {
        match event {
            LinkEvent::Write(len) => 0 <= len <= self.credit,
            LinkEvent::Arrive(len) => len <= self.payload_on_the_way,
            LinkEvent::Grant => self.window.granted_total + self.window.update() <= u64::MAX,
            LinkEvent::Credit(granted) => 0 <= granted <= self.credit_on_the_way,
        }
    }

    /// The link after `event`.
    pub open spec fn after(self, event: LinkEvent, rtt: Option<TimeSpan>, now: Timestamp) -> Link {
        match event {
            LinkEvent::Write(len) => Link {
                credit: self.credit - len,
                payload_on_the_way: self.payload_on_the_way + len,
                ..self
            },
            LinkEvent::Arrive(len) => Link {
                payload_on_the_way: self.payload_on_the_way - len,
                window: self.window.paid(len, rtt, now),
                ..self
            },
            LinkEvent::Grant => Link {
                credit_on_the_way: self.credit_on_the_way + self.window.update(),
                window: self.window.regranted(),
                ..self
            },
            LinkEvent::Credit(granted) => Link {
                credit: self.credit + granted,
                credit_on_the_way: self.credit_on_the_way - granted,
                ..self
            },
        }
    }
}

/// A sender that keeps to its credit is never refused: whatever happens on the
/// link, every byte of credit stays accounted for, and the receiver never finds
/// itself overdrawn.
pub proof fn honest_senders_are_never_refused(
    link: Link,
    event: LinkEvent,
    rtt: Option<TimeSpan>,
    now: Timestamp,
)
    requires
        link.accounted(),
        link.allows(event),
    ensures
        link.after(event, rtt, now).accounted(),
        !link.after(event, rtt, now).window.overdrawn(),
{
}

/// A sender that spends more than it was ever granted is refused with the byte
/// that goes over.
pub proof fn overdrawing_is_refused(v: TransitView, remaining: u32, now: Timestamp)
    requires
        v.parse == Parse::Payload(remaining),
        remaining > 0,
        v.raw.len() > 0,
        v.window.granted_total < u64::MAX,
        v.window.received_total == v.window.granted_total,
    ensures
        v.parsed(now).1 == Err::<(), TransitError>(TransitError::Overdrawn),
{
    assert(v.step(now) is Fail);
}

} // verus!
