//! What stands where on the wire.

use bytes::Bytes;
use vstd::prelude::*;

use crate::buffer::{same_bytes, Buffer, Data, DataList};
use crate::bytes_ext::content;
use crate::codec::decoder::{DecodedFrame, Decoder, FrameView};
use crate::codec::encoder::{joined, EncoderItem};
use crate::codec::RammuxCodec;
use crate::config::RammuxRole;
use crate::error::{DecodeError, ErrorKind};
use crate::header::{ControlFlags, Header, PingPayload, RawFlags, RawHeader};
use crate::stream_id::{u32_from_be_bytes, u32_to_be_bytes, StreamId};
use crate::transport::frame::{Payload, StreamFrame};

verus! {

/// The number that three bytes stand for, the most significant first.
pub open spec fn number_of_three(a: u8, b: u8, c: u8) -> int {
    (a * 256 + b) * 256 + c
}

/// The number that four bytes stand for, the most significant first.
pub open spec fn number_of_four(a: u8, b: u8, c: u8, d: u8) -> int {
    ((a * 256 + b) * 256 + c) * 256 + d
}

/// Numbers are written and read with the most significant byte first.
pub proof fn numbers_are_big_endian(value: u32, written: [u8; 4], bytes: [u8; 4], read: u32)
    requires
        call_ensures(u32_to_be_bytes, (value,), written),
        call_ensures(u32_from_be_bytes, (bytes,), read),
    ensures
        number_of_four(written@[0], written@[1], written@[2], written@[3]) == value,
        read == number_of_four(bytes@[0], bytes@[1], bytes@[2], bytes@[3]),
        bytes@ == written@ ==> read == value,
{
}

/// Stream numbers are written and read as three bytes, the most significant first.
pub proof fn stream_numbers_are_big_endian(
    id: StreamId,
    written: [u8; 3],
    bytes: [u8; 3],
    read: StreamId,
    value: u32,
)
    requires
        call_ensures(StreamId::to_be_bytes, (id,), written),
        call_ensures(StreamId::from_be_bytes, (bytes,), read),
        call_ensures(StreamId::value, (id,), value),
    ensures
        number_of_three(written@[0], written@[1], written@[2]) == value,
        read@ == number_of_three(bytes@[0], bytes@[1], bytes@[2]),
        value == id@,
        value <= 0xFF_FFFF,
{
}

/// A slot makes an even number for a client and an odd one for a server, as long as
/// there are numbers left, and the number tells both.
pub proof fn slots_make_numbers(
    slot: usize,
    role: RammuxRole,
    made: Option<StreamId>,
    id: StreamId,
    back: usize,
    by: RammuxRole,
)
    requires
        call_ensures(StreamId::from_slab_idx, (slot, role), made),
        call_ensures(StreamId::slab_idx, (id,), back),
        call_ensures(StreamId::initiated_by, (id,), by),
    ensures
        made is Some <==> slot < 0x80_0000,
        made matches Some(number) ==> number@ == 2 * slot + if role is Server {
            1int
        } else {
            0
        },
        made == Some(id) ==> back == slot && by == role,
        2 * back <= id@ <= 2 * back + 1,
        by is Client <==> id@ % 2 == 0,
        by is Server <==> id@ % 2 == 1,
{
}

/// A number that is drawn at random is the front of what was drawn.
pub proof fn random_numbers_keep_what_was_drawn(
    drawn: u32,
    id: StreamId,
    len: u32,
    payload: PingPayload,
)
    requires
        call_ensures(StreamId::from_random, (drawn,), id),
        call_ensures(PingPayload::from_random, (drawn, len), payload),
    ensures
        256 * id@ <= drawn < 256 * (id@ + 1),
        payload.stream_id@ == id@,
        payload.len == len,
{
}

/// A header is eight bytes: three of the stream's number, one of flags, four of the
/// length.
pub proof fn headers_have_their_layout(
    header: RawHeader,
    written: [u8; 8],
    raw: [u8; 8],
    read: RawHeader,
)
    requires
        call_ensures(RawHeader::encode, (header,), written),
        call_ensures(RawHeader::decode, (raw,), read),
    ensures
        number_of_three(written@[0], written@[1], written@[2]) == header.stream_id@,
        written@[3] == header.flags.bits,
        number_of_four(written@[4], written@[5], written@[6], written@[7]) == header.len,
        read.stream_id@ == number_of_three(raw@[0], raw@[1], raw@[2]),
        read.flags.bits == raw@[3],
        read.len == number_of_four(raw@[4], raw@[5], raw@[6], raw@[7]),
{
    let w = written@;
    assert(raw@.subrange(0, 3)[0] == raw@[0] && raw@.subrange(0, 3)[1] == raw@[1]
        && raw@.subrange(0, 3)[2] == raw@[2]);
    assert(raw@.subrange(4, 8)[0] == raw@[4] && raw@.subrange(4, 8)[1] == raw@[5]
        && raw@.subrange(4, 8)[2] == raw@[6] && raw@.subrange(4, 8)[3] == raw@[7]);
    crate::stream_id::id_has_its_value(
        number_of_three(raw@[0], raw@[1], raw@[2]) as u32,
    );
}

/// A bit of a byte.
pub open spec fn bit(bits: u8, weight: int) -> bool {
    bits as int / weight % 2 == 1
}

/// The lowest three bits of the flags tell what a frame is: one a `PING`, two a
/// `WINDOW_UPDATE`, four `DATA`. The next three are `FIN_READ`, `FIN_WRITE` and
/// `SYN`; the last two mean nothing. A `PING` without `SYN` is a response and ends
/// nothing; `TERM` is all zeros. Anything else is refused, and said why.
pub proof fn headers_are_told_apart(header: RawHeader, r: Result<Header, DecodeError>)
    requires
        call_ensures(RawHeader::validate, (header,), r),
    ensures
        ({
            let bits = header.flags.bits;
            let sort = bits as int % 8;
            let flags = ControlFlags {
                fin_read: bit(bits, 8),
                fin_write: bit(bits, 16),
                syn: bit(bits, 32),
            };
            match r {
                Ok(Header::Ping { payload, is_response }) => {
                    &&& sort == 1 && bits < 64
                    &&& payload.stream_id == header.stream_id && payload.len == header.len
                    &&& is_response == !flags.syn
                    &&& !flags.fin_read && !flags.fin_write
                },
                Ok(Header::WindowUpdate { stream_id, flags: told, len }) => {
                    &&& sort == 2 && bits < 64
                    &&& stream_id == header.stream_id && told == flags && len == header.len
                },
                Ok(Header::Data { stream_id, flags: told, len }) => {
                    &&& sort == 4 && bits < 64
                    &&& stream_id == header.stream_id && told == flags && len == header.len
                },
                Ok(Header::Term) => bits == 0 && header.stream_id@ == 0 && header.len == 0,
                Err(error) => {
                    &&& error.header == header
                    &&& error.message@ == if bits >= 64 {
                        "unknown flags set"@
                    } else if sort == 1 {
                        "PING frame with forbidden flags"@
                    } else if sort == 0 {
                        "TERM frame with dirty bits"@
                    } else {
                        "invalid frame type"@
                    }
                    &&& bits < 64 ==> sort != 2 && sort != 4
                    &&& bits < 64 && sort == 1 ==> flags.fin_read || flags.fin_write
                    &&& bits < 64 && sort == 0 ==> bits != 0 || header.stream_id@ != 0 || header.len
                        != 0
                },
            }
        }),
{
}

/// Flags are bits of their own, on the way in and on the way out.
pub proof fn flags_are_bits(
    raw: RawFlags,
    read: ControlFlags,
    flags: ControlFlags,
    written: RawFlags,
    bits: u8,
    kept: RawFlags,
    unknown: bool,
)
    requires
        call_ensures(<ControlFlags as From<RawFlags>>::from, (raw,), read),
        call_ensures(<RawFlags as From<ControlFlags>>::from, (flags,), written),
        call_ensures(RawFlags::from_bits_retain, (bits,), kept),
        call_ensures(RawFlags::contains_unknown_bits, (raw,), unknown),
    ensures
        read.fin_read == bit(raw.bits, 8),
        read.fin_write == bit(raw.bits, 16),
        read.syn == bit(raw.bits, 32),
        bit(written.bits, 8) == flags.fin_read,
        bit(written.bits, 16) == flags.fin_write,
        bit(written.bits, 32) == flags.syn,
        written.bits as int % 8 == 0 && written.bits < 64,
        kept.bits == bits,
        unknown <==> raw.bits >= 64,
{
}

/// What a ping is written as.
pub proof fn pings_are_written_as_headers(payload: PingPayload, is_response: bool, r: EncoderItem)
    requires
        payload.stream_id.valid(),
        call_ensures(EncoderItem::new_ping, (payload, is_response), r),
    ensures
        r@.len() == 8,
        number_of_three(r@[0], r@[1], r@[2]) == payload.stream_id@,
        r@[3] == if is_response {
            1int
        } else {
            33int
        },
        number_of_four(r@[4], r@[5], r@[6], r@[7]) == payload.len,
{
}

/// What the end of a session is written as.
pub proof fn terms_are_written_as_zeros(r: EncoderItem)
    requires
        call_ensures(EncoderItem::new_terminate, (), r),
    ensures
        r@.len() == 8,
        forall|i: int| 0 <= i < 8 ==> r@[i] == 0,
{
}

/// The byte of flags of a stream frame.
pub open spec fn flag_byte(sort: int, flags: ControlFlags) -> int {
    sort + if flags.fin_read {
        8int
    } else {
        0
    } + if flags.fin_write {
        16int
    } else {
        0
    } + if flags.syn {
        32int
    } else {
        0
    }
}

/// What credit of a stream is written as.
pub proof fn updates_are_written_as_headers(
    stream_id: StreamId,
    flags: ControlFlags,
    update: u32,
    r: EncoderItem,
)
    requires
        stream_id.valid(),
        call_ensures(EncoderItem::new_window_update, (stream_id, flags, update), r),
    ensures
        r@.len() == 8,
        number_of_three(r@[0], r@[1], r@[2]) == stream_id@,
        r@[3] == flag_byte(2, flags),
        number_of_four(r@[4], r@[5], r@[6], r@[7]) == update,
{
}

/// What data of a stream is written as: a header with its length, then the data.
pub proof fn data_is_written_behind_its_header(
    stream_id: StreamId,
    flags: ControlFlags,
    data: Bytes,
    r: EncoderItem,
)
    requires
        stream_id.valid(),
        content(data).len() <= u32::MAX,
        16 + content(data).len() <= usize::MAX,
        call_ensures(EncoderItem::new_data, (stream_id, flags, data), r),
    ensures
        r@.len() == 8 + content(data).len(),
        number_of_three(r@[0], r@[1], r@[2]) == stream_id@,
        r@[3] == flag_byte(4, flags),
        number_of_four(r@[4], r@[5], r@[6], r@[7]) == content(data).len(),
        r@.skip(8) == content(data),
{
    assert(r@.skip(8) =~= content(data));
}

/// What credit and data are written as together: the update with `SYN` and
/// `FIN_READ`, then the data with `FIN_WRITE`.
pub proof fn pairs_are_written_back_to_back(
    stream_id: StreamId,
    flags: ControlFlags,
    update: u32,
    data: Bytes,
    r: EncoderItem,
)
    requires
        stream_id.valid(),
        content(data).len() <= u32::MAX,
        16 + content(data).len() <= usize::MAX,
        call_ensures(
            EncoderItem::new_window_update_and_data,
            (stream_id, flags, update, data),
            r,
        ),
    ensures
        r@.len() == 16 + content(data).len(),
        number_of_three(r@[0], r@[1], r@[2]) == stream_id@,
        r@[3] == flag_byte(
            2,
            ControlFlags { fin_read: flags.fin_read, fin_write: false, syn: flags.syn },
        ),
        number_of_four(r@[4], r@[5], r@[6], r@[7]) == update,
        number_of_three(r@[8], r@[9], r@[10]) == stream_id@,
        r@[11] == flag_byte(
            4,
            ControlFlags { fin_read: false, fin_write: flags.fin_write, syn: false },
        ),
        number_of_four(r@[12], r@[13], r@[14], r@[15]) == content(data).len(),
        r@.skip(16) == content(data),
{
    assert(r@.skip(16) =~= content(data));
}

/// An item is written from its front, and what is left of it is what was not
/// written yet.
pub proof fn items_are_written_from_the_front(
    item: &EncoderItem,
    left: usize,
    more: bool,
    chunk: &[u8],
    slices: Vec<&[u8]>,
    advanced: &mut EncoderItem,
    count: usize,
)
    requires
        count <= advanced@.len(),
        call_ensures(EncoderItem::remaining, (item,), left),
        call_ensures(EncoderItem::has_remaining, (item,), more),
        call_ensures(EncoderItem::chunk, (item,), chunk),
        call_ensures(EncoderItem::chunks_vectored, (item, 2usize), slices),
        call_ensures(EncoderItem::advance, (advanced, count), ()),
    ensures
        left == item@.len(),
        more <==> left > 0,
        chunk@.is_prefix_of(item@),
        more ==> chunk@.len() > 0,
        joined(slices@) == item@,
        forall|i: int| 0 <= i < slices@.len() ==> (#[trigger] slices@[i])@.len() > 0,
        old(advanced)@.take(count as int) + final(advanced)@ == old(advanced)@,
{
    assert(old(advanced)@.take(count as int) + final(advanced)@ =~= old(advanced)@);
    assert(chunk@ =~= item@.take(chunk@.len() as int));
    let shown = slices@.map_values(|slice: &[u8]| slice@);
    assert forall|i: int| 0 <= i < slices@.len() implies (#[trigger] slices@[i])@.len() > 0 by {
        assert(shown[i] == slices@[i]@);
    }
}

/// A frame of data is written in two runs: its header, and its data behind that.
pub proof fn data_frames_are_written_in_two_runs(
    stream_id: StreamId,
    flags: ControlFlags,
    data: Bytes,
    item: &mut EncoderItem,
    head: &[u8],
    rest: &[u8],
    slices: Vec<&[u8]>,
)
    requires
        stream_id.valid(),
        content(data).len() <= u32::MAX,
        16 + content(data).len() <= usize::MAX,
        call_ensures(EncoderItem::new_data, (stream_id, flags, data), *item),
        call_ensures(EncoderItem::chunk, (&*old(item),), head),
        call_ensures(EncoderItem::advance, (item, 8usize), ()),
        call_ensures(EncoderItem::chunk, (&*final(item),), rest),
        call_ensures(EncoderItem::chunks_vectored, (&*old(item), 1usize), slices),
    ensures
        head@.len() == 8,
        head@ + rest@ == old(item)@,
        rest@ == content(data),
        slices@.len() == 1 && slices@[0]@ == head@,
{
    let runs = old(item).runs();
    assert(head@ + rest@ =~= old(item)@);
    assert(runs[0] == head@);
    let shown = slices@.map_values(|slice: &[u8]| slice@);
    assert(runs.take(1).len() == 1 || runs.len() == 1);
    assert(shown.len() == 1);
    assert(shown[0] == head@);
}

/// A codec takes up to sixteen items, and what it has to write is what they hold, in
/// the order in which they came.
pub proof fn codecs_write_in_order(
    frame_limit: u32,
    fresh: RammuxCodec,
    codec: &RammuxCodec,
    full: bool,
    empty: bool,
    slices: Vec<&[u8]>,
    queued: &mut RammuxCodec,
    item: EncoderItem,
    written: &mut RammuxCodec,
    count: usize,
)
    requires
        frame_limit <= isize::MAX,
        codec.valid() && queued.valid() && written.valid(),
        queued.encoder_queue@.len() < 16,
        item@.len() > 0,
        count <= written.output().len(),
        call_ensures(RammuxCodec::new, (frame_limit,), fresh),
        call_ensures(RammuxCodec::encoder_queue_full, (codec,), full),
        call_ensures(RammuxCodec::encoder_queue_empty, (codec,), empty),
        call_ensures(RammuxCodec::chunks_vectored, (codec,), slices),
        call_ensures(RammuxCodec::start_send, (queued, item), ()),
        call_ensures(RammuxCodec::written, (written, count), ()),
    ensures
        fresh.output().len() == 0 && fresh.decoder.limit() == frame_limit,
        full <==> codec.encoder_queue@.len() == 16,
        empty <==> codec.encoder_queue@.len() == 0,
        joined(slices@) == codec.output(),
        final(queued).output() == old(queued).output() + item@,
        final(queued).encoder_queue@.len() == old(queued).encoder_queue@.len() + 1,
        old(written).output().take(count as int) + final(written).output() == old(
            written).output(),
        final(written).encoder_queue@.len() <= old(written).encoder_queue@.len() || count == 0,
{
    assert(old(written).output().take(count as int) + final(written).output() =~= old(
        written).output());
    drained_is_shorter(old(written).items(), count as int);
}

/// What is written leaves no more items than there were.
proof fn drained_is_shorter(items: Seq<Seq<u8>>, n: int)
    ensures
        crate::codec::drained(items, n).len() <= items.len(),
    decreases items.len(),
{
    if items.len() > 0 && n >= items[0].len() {
        drained_is_shorter(items.drop_first(), n - items[0].len());
    }
}

/// A decoder that holds nothing reads a header first: eight bytes and no more.
pub proof fn decoders_read_headers_first(decoder: &Decoder, r: usize)
    requires
        decoder.seen().len() < 8,
        call_ensures(Decoder::wanted, (decoder,), r),
    ensures
        r == 8 - decoder.seen().len(),
{
}

/// A header that asks for nothing behind it is a frame at once.
pub proof fn bare_headers_are_frames(
    decoder: &mut Decoder,
    bytes: &[u8],
    r: Result<Option<DecodedFrame>, ErrorKind>,
)
    requires
        decoder.seen().len() == 0,
        bytes@.len() == 8,
        call_ensures(Decoder::feed, (decoder, bytes), r),
    ensures
        ({
            let id = number_of_three(bytes@[0], bytes@[1], bytes@[2]);
            let sort = bytes@[3] as int % 8;
            let value = number_of_four(bytes@[4], bytes@[5], bytes@[6], bytes@[7]);
            let known = bytes@[3] < 64;
            &&& known && sort == 2 ==> (r matches Ok(Some(frame)) && (
            frame@ matches FrameView::WindowUpdate { stream_id, flags, update } && stream_id@ == id
                && update == value && flags.syn == bit(bytes@[3], 32) && flags.fin_read == bit(
                bytes@[3],
                8,
            ) && flags.fin_write == bit(bytes@[3], 16)))
            &&& bytes@[3] == 1 || bytes@[3] == 33 ==> (r matches Ok(Some(frame)) && (
            frame@ matches FrameView::Ping { payload, is_response } && payload.stream_id@ == id
                && payload.len == value && is_response == (bytes@[3] == 1)))
            &&& bytes@[3] == 0 && id == 0 && value == 0 ==> (r matches Ok(Some(frame))
                && frame@ is Terminate)
            &&& known && sort == 4 && value > old(decoder).limit() ==> (r matches Err(
                ErrorKind::Stream { id: at, error },
            ) && at@ == id && error.0@ == "sent a DATA frame exceeding the configured size limit"@)
            &&& known && sort == 4 && 0 < value <= old(decoder).limit() ==> (r matches Ok(None))
            &&& !known ==> (r matches Err(ErrorKind::Decode(error)) && error.message@
                == "unknown flags set"@)
        }),
{
    let b = bytes@;
    assert(decoder.seen() + b =~= b);
    assert(b.subrange(0, 8) =~= b);
    assert(b.subrange(0, 3)[0] == b[0] && b.subrange(0, 3)[1] == b[1] && b.subrange(0, 3)[2]
        == b[2]);
    assert(b.subrange(4, 8)[0] == b[4] && b.subrange(4, 8)[1] == b[5] && b.subrange(4, 8)[2]
        == b[6] && b.subrange(4, 8)[3] == b[7]);
    crate::stream_id::id_has_its_value(number_of_three(b[0], b[1], b[2]) as u32);
}

/// What a decoder holds of a frame that was cut short it gives back, and the flow
/// may end only where that is nothing.
pub proof fn decoders_give_back_what_they_hold(
    decoder: Decoder,
    ended: Result<(), ErrorKind>,
    unread: Vec<u8>,
)
    requires
        call_ensures(Decoder::end, (&decoder,), ended),
        call_ensures(Decoder::into_unread, (decoder,), unread),
    ensures
        unread@ == decoder.seen(),
        ended is Ok <==> unread@.len() == 0,
        ended matches Err(error) ==> error is Io,
{
}

/// Bytes are the same where each of them is.
pub proof fn same_bytes_are_the_same(a: &[u8], b: &[u8], r: bool)
    requires
        call_ensures(same_bytes, (a, b), r),
    ensures
        r <==> a@.len() == b@.len() && forall|i: int| 0 <= i < a@.len() ==> a@[i] == b@[i],
{
    if a@.len() == b@.len() && (forall|i: int| 0 <= i < a@.len() ==> a@[i] == b@[i]) {
        assert(a@ =~= b@);
    }
}

/// A buffer that is filled holds what was put there and what it held before
/// elsewhere.
pub proof fn buffers_hold_what_was_put_there(
    buffer: &mut Buffer,
    at: usize,
    bytes: &[u8],
    whole: Buffer,
    data: Data,
)
    requires
        at + bytes@.len() <= buffer@.len(),
        call_ensures(Buffer::fill, (buffer, at, bytes), ()),
        call_ensures(Buffer::assume_init, (whole,), data),
    ensures
        final(buffer)@.len() == old(buffer)@.len(),
        forall|i: int|
            0 <= i < old(buffer)@.len() ==> #[trigger] final(buffer)@[i] == if at <= i < at
                + bytes@.len() {
                bytes@[i - at]
            } else {
                old(buffer)@[i]
            },
        data@ == whole@,
{
}

/// A list of chunks is taken from its front and put together at its back, and an
/// empty chunk is none.
pub proof fn chunks_are_taken_in_order(
    list: &mut DataList,
    chunk: Data,
    other: &mut DataList,
    r: Option<Data>,
    third: &DataList,
    empty: bool,
)
    requires
        call_ensures(DataList::push_back, (list, chunk), ()),
        call_ensures(DataList::pop_front, (other,), r),
        call_ensures(DataList::is_empty, (third,), empty),
    ensures
        chunk@.len() > 0 ==> final(list)@ == old(list)@ + seq![chunk@],
        chunk@.len() == 0 ==> final(list)@ == old(list)@,
        r matches Some(data) ==> seq![data@] + final(other)@ == old(other)@,
        r is None ==> old(other)@.len() == 0 && final(other)@ == old(other)@,
        empty <==> third@.len() == 0,
{
    assert(old(list)@ + seq![chunk@] =~= old(list)@.push(chunk@));
    if old(other)@.len() > 0 {
        let all = old(other)@;
        assert(seq![all[0]] + all.drop_first() =~= all);
    }
}

/// Data is the bytes that it was made of, however it is looked at.
pub proof fn data_is_its_bytes(
    slice: &[u8],
    data: Data,
    bytes: &[u8],
    len: usize,
    empty: bool,
    over: Bytes,
)
    requires
        call_ensures(Data::copy_from_slice, (slice,), data),
        call_ensures(Data::as_slice, (&data,), bytes),
        call_ensures(Data::len, (&data,), len),
        call_ensures(Data::is_empty, (&data,), empty),
        call_ensures(Data::into_bytes, (data,), over),
    ensures
        bytes@ == slice@,
        len == slice@.len(),
        empty <==> slice@.len() == 0,
        content(over) == slice@,
{
}

/// A payload is its bytes, whichever way it came.
pub proof fn payloads_are_their_bytes(
    payload: Payload,
    bytes: &[u8],
    len: usize,
    empty: bool,
    received: Data,
    to_send: Bytes,
)
    requires
        call_ensures(Payload::as_slice, (&payload,), bytes),
        call_ensures(Payload::len, (&payload,), len),
        call_ensures(Payload::is_empty, (&payload,), empty),
        call_ensures(Payload::into_received, (payload,), received),
        call_ensures(Payload::into_bytes, (payload,), to_send),
    ensures
        bytes@ == match payload {
            Payload::Received(data) => data@,
            Payload::ToSend(data) => content(data),
        },
        len == bytes@.len(),
        empty <==> bytes@.len() == 0,
        received@ == bytes@,
        content(to_send) == bytes@,
{
}

/// A stream frame is encoded as what it carries, under the number and the flags
/// that it has.
pub proof fn stream_frames_are_encoded_as_what_they_carry(
    frame: StreamFrame,
    item: EncoderItem,
    id: StreamId,
    flags: ControlFlags,
    bytes: Bytes,
    data: EncoderItem,
    update: EncoderItem,
)
    requires
        frame.payload_len() <= u32::MAX,
        16 + frame.payload_len() <= usize::MAX,
        call_ensures(StreamFrame::encode, (frame,), item),
        call_ensures(StreamFrame::stream_id, (&frame,), id),
        call_ensures(StreamFrame::flags, (&frame,), flags),
        frame matches StreamFrame::Data(carried) ==> content(bytes) == carried.payload@
            && call_ensures(EncoderItem::new_data, (id, flags, bytes), data),
        frame matches StreamFrame::WindowUpdate(carried) ==> call_ensures(
            EncoderItem::new_window_update,
            (id, flags, carried.update),
            update,
        ),
    ensures
        match frame {
            StreamFrame::Data(carried) => id == carried.stream_id && flags == carried.flags
                && item@ == data@,
            StreamFrame::WindowUpdate(carried) => id == carried.stream_id && flags == carried.flags
                && item@ == update@,
        },
{
}

} // verus!
