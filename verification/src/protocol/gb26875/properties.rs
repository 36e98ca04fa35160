//! Properties of GB26875 framing, parsing and encoding taken together.
use crate::buffers::{be_u16_at, bytes_view};
use crate::error::ProtocolErrorView;
use crate::protocol::gb26875::framing::{first_magic_at, magic_at, spec_detect_frame, spec_find_magic};
use crate::text::end_marker_text;
use crate::protocol::gb26875::parser::{
    parse_frame_requires, spec_encode_message, spec_parse_frame,
};
use crate::protocol::gb26875::types::{ProtocolAMessage, END_MARKER, MAGIC_NUMBER};
use crate::codec::dispatcher::ProtocolCodec;
use crate::protocol::gb26875::ProtocolA;
use crate::protocol::traits::{FrameDetector, ProtocolParser};
use vstd::prelude::*;

verus! {

/// Parsing the frame that encoding writes gives the message back, when the
/// message carries the start marker and its header announces its data length.
pub proof fn lemma_parse_encoded(msg: ProtocolAMessage)
    requires
        msg.header.magic == MAGIC_NUMBER,
        msg.header.data_unit_len == bytes_view(msg.data).len(),
    ensures
        spec_encode_message(msg@).len() == 30 + bytes_view(msg.data).len(),
        parse_frame_requires(spec_encode_message(msg@)),
        spec_parse_frame(spec_encode_message(msg@)) == Ok::<_, crate::error::ProtocolErrorView>(msg@),
        be_u16_at(spec_encode_message(msg@), 0) == MAGIC_NUMBER,
        be_u16_at(spec_encode_message(msg@), 24) == bytes_view(msg.data).len(),
        be_u16_at(spec_encode_message(msg@), 28 + bytes_view(msg.data).len() as int) == END_MARKER,
{
    reveal(spec_encode_message);
    let s = spec_encode_message(msg@);
    let n = bytes_view(msg.data).len() as int;
    assert(s.len() == 30 + n);
    assert(be_u16_at(s, 0) == MAGIC_NUMBER);
    assert(be_u16_at(s, 24) == n);
    assert(s.subrange(12, 18) =~= msg.header.src_addr@);
    assert(s.subrange(18, 24) =~= msg.header.dst_addr@);
    assert(s.subrange(27, 27 + n) =~= bytes_view(msg.data));
    assert(s[27 + n] == msg.checksum);
}

/// Encoding the message that a frame holds gives the frame back, up to its end
/// marker, when the frame carries the start marker and ends with the end marker.
pub proof fn lemma_encode_parsed(s: Seq<u8>)
    requires
        parse_frame_requires(s),
        be_u16_at(s, 0) == MAGIC_NUMBER,
        be_u16_at(s, 28 + be_u16_at(s, 24)) == END_MARKER,
    ensures
        spec_parse_frame(s) matches Ok(v) && spec_encode_message(v) == s.take(
            30 + be_u16_at(s, 24),
        ),
{
    reveal(spec_encode_message);
    let n = be_u16_at(s, 24);
    let v = spec_parse_frame(s)->Ok_0;
    assert(spec_encode_message(v) =~= s.take(30 + n));
}

/// The first start marker of `s` stands at `i`.
proof fn lemma_find_magic_is(s: Seq<u8>, i: int)
    requires
        first_magic_at(s, i),
    ensures
        spec_find_magic(s) == Some(i),
{
    let k = choose|k: int| first_magic_at(s, k);
    if k < i {
        assert(!magic_at(s, k));
    } else if k > i {
        assert(!magic_at(s, i));
    }
}

/// A frame that detection reports is at least a header, checksum and end marker
/// long, at most `max` bytes long, and lies within the buffer.
pub proof fn lemma_detected_frame_bounds(s: Seq<u8>, max: usize)
    requires
        spec_detect_frame(s, max) matches Ok(Some(_)),
    ensures
        spec_detect_frame(s, max) matches Ok(Some(n)) && 30 <= n <= max && n <= s.len(),
{
}

/// A buffer that opens with a complete frame of at most `max` bytes ending with
/// the end marker: detection answers the length of that frame.
pub proof fn lemma_detect_frame_at_front(s: Seq<u8>, max: usize)
    requires
        s.len() >= 30,
        be_u16_at(s, 0) == MAGIC_NUMBER,
        30 + be_u16_at(s, 24) <= max,
        s.len() >= 30 + be_u16_at(s, 24),
        be_u16_at(s, 28 + be_u16_at(s, 24)) == END_MARKER,
    ensures
        spec_detect_frame(s, max) == Ok::<_, crate::error::ProtocolErrorView>(
            Some((30 + be_u16_at(s, 24)) as usize),
        ),
{
    lemma_find_magic_is(s, 0);
}

/// A buffer that holds only the beginning of such a frame: detection asks for
/// more data.
pub proof fn lemma_detect_partial_frame(s: Seq<u8>, max: usize, k: int)
    requires
        s.len() >= 30,
        be_u16_at(s, 0) == MAGIC_NUMBER,
        30 + be_u16_at(s, 24) <= max,
        0 <= k < 30 + be_u16_at(s, 24),
        k <= s.len(),
    ensures
        spec_detect_frame(s.take(k), max) == Ok::<_, crate::error::ProtocolErrorView>(None::<usize>),
{
    let p = s.take(k);
    if k >= 30 {
        assert(first_magic_at(p, 0));
        lemma_find_magic_is(p, 0);
        assert(be_u16_at(p, 24) == be_u16_at(s, 24));
    }
}

/// Once detection finds a complete frame, more bytes after it do not change
/// the answer.
pub proof fn lemma_detect_frame_extends(s: Seq<u8>, more: Seq<u8>, max: usize)
    requires
        spec_detect_frame(s, max) matches Ok(Some(_)),
    ensures
        spec_detect_frame(s + more, max) == spec_detect_frame(s, max),
{
    let t = s + more;
    let i = spec_find_magic(s)->Some_0;
    assert(first_magic_at(s, i));
    assert forall|j: int| 0 <= j < i implies !#[trigger] magic_at(t, j) by {
        assert(!magic_at(s, j));
        assert(t[j] == s[j] && t[j + 1] == s[j + 1]);
    }
    assert(t[i] == s[i] && t[i + 1] == s[i + 1]);
    assert(first_magic_at(t, i));
    lemma_find_magic_is(t, i);
    let total = 30 + be_u16_at(s, i + 24);
    assert(t[i + 24] == s[i + 24] && t[i + 25] == s[i + 25]);
    assert(t[i + total - 2] == s[i + total - 2] && t[i + total - 1] == s[i + total - 1]);
}

/// A frame written by encoding, followed by any bytes, is found whole by
/// detection, when its header announces its data length and it fits `max`.
pub proof fn lemma_detect_encoded(msg: ProtocolAMessage, rest: Seq<u8>, max: usize)
    requires
        msg.header.magic == MAGIC_NUMBER,
        msg.header.data_unit_len == bytes_view(msg.data).len(),
        30 + bytes_view(msg.data).len() <= max,
    ensures
        spec_detect_frame(spec_encode_message(msg@) + rest, max) == Ok::<_, crate::error::ProtocolErrorView>(
            Some((30 + bytes_view(msg.data).len()) as usize),
        ),
{
    let s = spec_encode_message(msg@);
    lemma_parse_encoded(msg);
    lemma_detect_frame_at_front(s, max);
    lemma_detect_frame_extends(s, rest, max);
}

/// Every frame that detection reports can be parsed: either it opens with the
/// start marker, and then it is exactly as long as its header announces, or it
/// does not, and parsing reports the wrong start marker.
pub proof fn lemma_detected_frame_parses(s: Seq<u8>, max: usize)
    requires
        spec_detect_frame(s, max) matches Ok(Some(_)),
    ensures
        spec_detect_frame(s, max) matches Ok(Some(n)) && parse_frame_requires(s.take(n as int)),
{
    let n = spec_detect_frame(s, max)->Ok_0->Some_0 as int;
    let i = spec_find_magic(s)->Some_0;
    let f = s.take(n);
    assert(first_magic_at(s, i));
    if be_u16_at(f, 0) == MAGIC_NUMBER {
        assert(magic_at(s, 0));
        assert(i == 0);
        assert(be_u16_at(f, 24) == be_u16_at(s, 24));
    }
}

/// A codec of the GB26875 protocol can decode every buffer.
pub proof fn lemma_codec_decodes_any_buffer(codec: ProtocolCodec<ProtocolA>, s: Seq<u8>)
    ensures
        codec.decode_requires(s),
{
    if spec_detect_frame(s, codec.detector().max_frame_size()) matches Ok(Some(_)) {
        lemma_detected_frame_parses(s, codec.detector().max_frame_size());
    }
}

/// A codec of the GB26875 protocol decodes a frame written by encoding,
/// followed by any bytes, into the message that was encoded, and leaves the
/// bytes that follow: detection answers the frame's length, the frame is what
/// encoding wrote, and parsing it gives the message, when the message carries
/// the start marker, its header announces its data length and the frame fits the
/// detector's maximum.
pub proof fn lemma_decode_encoded(codec: ProtocolCodec<ProtocolA>, msg: ProtocolAMessage, rest: Seq<u8>)
    requires
        msg.header.magic == MAGIC_NUMBER,
        msg.header.data_unit_len == bytes_view(msg.data).len(),
        30 + bytes_view(msg.data).len() <= codec.detector().max_frame_size(),
    ensures
        codec.decode_requires(spec_encode_message(msg@) + rest),
        codec.detector().spec_detect(spec_encode_message(msg@) + rest) == Ok::<_, crate::error::ProtocolErrorView>(
            Some(spec_encode_message(msg@).len() as usize),
        ),
        (spec_encode_message(msg@) + rest).take(spec_encode_message(msg@).len() as int)
            == spec_encode_message(msg@),
        (spec_encode_message(msg@) + rest).skip(spec_encode_message(msg@).len() as int) == rest,
        codec.parser().spec_parse(spec_encode_message(msg@)) == Ok::<_, crate::error::ProtocolErrorView>(msg@),
{
    let s = spec_encode_message(msg@);
    lemma_parse_encoded(msg);
    lemma_detect_encoded(msg, rest, codec.detector().max_frame_size());
    lemma_codec_decodes_any_buffer(codec, s + rest);
    assert((s + rest).take(s.len() as int) =~= s);
    assert((s + rest).skip(s.len() as int) =~= rest);
}

/// Decoding, with a codec of the GB26875 protocol, a buffer that holds a frame
/// written by encoding followed by any bytes gives the encoded message and leaves
/// the bytes that follow, when the message carries the start marker, its header
/// announces its data length and the frame fits the detector's maximum.
pub proof fn lemma_decode_gives_encoded_message(
    codec: ProtocolCodec<ProtocolA>,
    msg: ProtocolAMessage,
    rest: Seq<u8>,
    after: Seq<u8>,
    r: crate::error::Result<Option<ProtocolAMessage>>,
)
    requires
        msg.header.magic == MAGIC_NUMBER,
        msg.header.data_unit_len == bytes_view(msg.data).len(),
        30 + bytes_view(msg.data).len() <= codec.detector().max_frame_size(),
        codec.decode_outcome(spec_encode_message(msg@) + rest, after, r),
    ensures
        r matches Ok(Some(m)) && m@ == msg@,
        after == rest,
{
    lemma_decode_encoded(codec, msg, rest);
    lemma_parse_encoded(msg);
    let s = spec_encode_message(msg@);
    let before = s + rest;
    let n = s.len() as usize;
    assert(codec.detector().spec_detect(before) == Ok::<_, crate::error::ProtocolErrorView>(Some(n)));
    assert(before.take(n as int) == s);
    assert(codec.parser().spec_parse(before.take(n as int)) == Ok::<_, crate::error::ProtocolErrorView>(msg@));
    assert(after == before.skip(n as int));
}

/// The start marker stands at `i` exactly when the bytes at `i` and `i + 1` are
/// both 0x40.
proof fn lemma_magic_at_bytes(s: Seq<u8>, i: int)
    ensures
        magic_at(s, i) <==> (0 <= i && i + 1 < s.len() && s[i] == 0x40 && s[i + 1] == 0x40),
{
}

/// A frame that detection reports starts at the first position `i` where two
/// bytes 0x40 0x40 follow each other; its length is 30 plus the big-endian data
/// length in bytes `i + 24` and `i + 25`; it lies within the buffer and within
/// `max`; and its last two bytes are both 0x23.
pub proof fn lemma_detected_frame_layout(s: Seq<u8>, max: usize)
    requires
        spec_detect_frame(s, max) matches Ok(Some(_)),
    ensures
        spec_detect_frame(s, max) matches Ok(Some(n)) && exists|i: int|
            {
                &&& 0 <= i && i + 1 < s.len()
                &&& #[trigger] s[i] == 0x40 && s[i + 1] == 0x40
                &&& forall|j: int| 0 <= j < i ==> !(#[trigger] s[j] == 0x40 && s[j + 1] == 0x40)
                &&& n == 30 + s[i + 24] * 256 + s[i + 25]
                &&& n <= max
                &&& i + n <= s.len()
                &&& s[i + n - 2] == 0x23
                &&& s[i + n - 1] == 0x23
            },
{
    let n = spec_detect_frame(s, max)->Ok_0->Some_0 as int;
    let i = spec_find_magic(s)->Some_0;
    assert(first_magic_at(s, i));
    lemma_magic_at_bytes(s, i);
    assert forall|j: int| 0 <= j < i implies !(#[trigger] s[j] == 0x40 && s[j + 1] == 0x40) by {
        lemma_magic_at_bytes(s, j);
    }
    assert(s[i] == 0x40);
}

/// When the first start marker of the buffer opens a complete frame of at most
/// `max` bytes whose last two bytes are not both 0x23, detection fails with the
/// end-marker error, which names the big-endian value of those two bytes.
pub proof fn lemma_detect_bad_end_marker(s: Seq<u8>, max: usize, i: int)
    requires
        0 <= i,
        i + 30 <= s.len(),
        s[i] == 0x40 && s[i + 1] == 0x40,
        forall|j: int| 0 <= j < i ==> !(#[trigger] s[j] == 0x40 && s[j + 1] == 0x40),
        30 + s[i + 24] * 256 + s[i + 25] <= max,
        i + 30 + s[i + 24] * 256 + s[i + 25] <= s.len(),
        !(s[i + 28 + s[i + 24] * 256 + s[i + 25]] == 0x23 && s[i + 29 + s[i + 24] * 256 + s[i + 25]]
            == 0x23),
    ensures
        spec_detect_frame(s, max) == Err::<Option<usize>, _>(
            ProtocolErrorView::ParseError(
                end_marker_text(
                    (s[i + 28 + s[i + 24] * 256 + s[i + 25]] * 256 + s[i + 29 + s[i + 24] * 256
                        + s[i + 25]]) as u16,
                ),
            ),
        ),
{
    lemma_magic_at_bytes(s, i);
    assert forall|j: int| 0 <= j < i implies !#[trigger] magic_at(s, j) by {
        lemma_magic_at_bytes(s, j);
        assert(!(s[j] == 0x40 && s[j + 1] == 0x40));
    }
    assert(first_magic_at(s, i));
    lemma_find_magic_is(s, i);
}

/// When the first start marker of the buffer opens a frame whose header
/// announces more data than a frame of `max` bytes holds, detection fails with
/// the frame's length as soon as the header's length bytes are buffered.
pub proof fn lemma_detect_frame_too_long(s: Seq<u8>, max: usize, i: int)
    requires
        0 <= i,
        i + 30 <= s.len(),
        s[i] == 0x40 && s[i + 1] == 0x40,
        forall|j: int| 0 <= j < i ==> !(#[trigger] s[j] == 0x40 && s[j + 1] == 0x40),
        30 + s[i + 24] * 256 + s[i + 25] > max,
    ensures
        spec_detect_frame(s, max) == Err::<Option<usize>, _>(
            ProtocolErrorView::InvalidLength((30 + s[i + 24] * 256 + s[i + 25]) as usize),
        ),
{
    lemma_magic_at_bytes(s, i);
    assert forall|j: int| 0 <= j < i implies !#[trigger] magic_at(s, j) by {
        lemma_magic_at_bytes(s, j);
        assert(!(s[j] == 0x40 && s[j + 1] == 0x40));
    }
    assert(first_magic_at(s, i));
    lemma_find_magic_is(s, i);
}

/// Bytes before a frame that hold no two 0x40 bytes in a row (and do not end
/// with 0x40) do not change what detection answers on a complete, well ended
/// frame: its length.
pub proof fn lemma_detect_after_stray_bytes(p: Seq<u8>, s: Seq<u8>, max: usize)
    requires
        forall|j: int| 0 <= j < p.len() - 1 ==> !(#[trigger] p[j] == 0x40 && p[j + 1] == 0x40),
        p.len() > 0 ==> p[p.len() - 1] != 0x40,
        30 <= s.len(),
        s[0] == 0x40 && s[1] == 0x40,
        30 + s[24] * 256 + s[25] <= max,
        30 + s[24] * 256 + s[25] <= s.len(),
        s[28 + s[24] * 256 + s[25]] == 0x23,
        s[29 + s[24] * 256 + s[25]] == 0x23,
    ensures
        spec_detect_frame(p + s, max) == Ok::<_, ProtocolErrorView>(
            Some((30 + s[24] * 256 + s[25]) as usize),
        ),
{
    let t = p + s;
    let k = p.len() as int;
    assert(t[k] == s[0] && t[k + 1] == s[1]);
    lemma_magic_at_bytes(t, k);
    assert forall|j: int| 0 <= j < k implies !#[trigger] magic_at(t, j) by {
        lemma_magic_at_bytes(t, j);
        if j + 1 < k {
            assert(t[j] == p[j] && t[j + 1] == p[j + 1]);
            assert(!(p[j] == 0x40 && p[j + 1] == 0x40));
        } else {
            assert(t[j] == p[k - 1]);
        }
    }
    assert(first_magic_at(t, k));
    lemma_find_magic_is(t, k);
    let n = 30 + s[24] * 256 + s[25];
    assert(t[k + 24] == s[24] && t[k + 25] == s[25]);
    assert(t[k + n - 2] == s[n - 2] && t[k + n - 1] == s[n - 1]);
}

/// Whatever error detection gives on a buffer, decoding gives that error and
/// leaves the buffer as it was.
pub proof fn lemma_decode_passes_detection_errors<P: crate::protocol::traits::Protocol>(
    codec: ProtocolCodec<P>,
    before: Seq<u8>,
    after: Seq<u8>,
    r: crate::error::Result<Option<P::Message>>,
)
    requires
        codec.detector().spec_detect(before) is Err,
        codec.decode_outcome(before, after, r),
    ensures
        r matches Err(x) && Err::<Option<usize>, _>(x@) == codec.detector().spec_detect(before),
        after == before,
{
}

/// A GB26875 codec decoding a buffer whose first frame announces more than 2048
/// bytes gives `InvalidLength` with that length, and leaves the buffer as it was,
/// as soon as the header's length bytes are buffered.
pub proof fn lemma_decode_frame_too_long(
    codec: ProtocolCodec<ProtocolA>,
    before: Seq<u8>,
    i: int,
    after: Seq<u8>,
    r: crate::error::Result<Option<ProtocolAMessage>>,
)
    requires
        0 <= i,
        i + 30 <= before.len(),
        before[i] == 0x40 && before[i + 1] == 0x40,
        forall|j: int| 0 <= j < i ==> !(#[trigger] before[j] == 0x40 && before[j + 1] == 0x40),
        30 + before[i + 24] * 256 + before[i + 25] > 2048,
        codec.decode_outcome(before, after, r),
    ensures
        r matches Err(x) && x@ == ProtocolErrorView::InvalidLength(
            (30 + before[i + 24] * 256 + before[i + 25]) as usize,
        ),
        after == before,
{
    lemma_detect_frame_too_long(before, 2048, i);
}

/// Encoding lays each field of the message at its place in the frame: the start
/// marker and service id big-endian in bytes 0..4, the main and user version in
/// bytes 4 and 5, second, minute, hour, day, month and year in bytes 6..12, the
/// source and destination addresses in bytes 12..18 and 18..24, the data length
/// big-endian in bytes 24 and 25, the control byte in byte 26, then the data,
/// the checksum, and two bytes 0x23.
pub proof fn lemma_encode_layout(msg: ProtocolAMessage)
    ensures
        ({
            let f = spec_encode_message(msg@);
            let n = bytes_view(msg.data).len() as int;
            &&& f.len() == 30 + n
            &&& f[0] * 256 + f[1] == msg.header.magic
            &&& f[2] * 256 + f[3] == msg.header.service_id
            &&& f[4] == msg.header.version.main_version
            &&& f[5] == msg.header.version.user_version
            &&& f[6] == msg.header.timestamp.second
            &&& f[7] == msg.header.timestamp.minute
            &&& f[8] == msg.header.timestamp.hour
            &&& f[9] == msg.header.timestamp.day
            &&& f[10] == msg.header.timestamp.month
            &&& f[11] == msg.header.timestamp.year
            &&& forall|k: int| 0 <= k < 6 ==> f[12 + k] == msg.header.src_addr[k]
            &&& forall|k: int| 0 <= k < 6 ==> f[18 + k] == msg.header.dst_addr[k]
            &&& f[24] * 256 + f[25] == msg.header.data_unit_len
            &&& f[26] == msg.header.control
            &&& forall|k: int| 0 <= k < n ==> f[27 + k] == bytes_view(msg.data)[k]
            &&& f[27 + n] == msg.checksum
            &&& f[28 + n] == 0x23
            &&& f[29 + n] == 0x23
        }),
{
    reveal(spec_encode_message);
    let f = spec_encode_message(msg@);
    let n = bytes_view(msg.data).len() as int;
    assert(f.len() == 30 + n);
    assert(f[0] * 256 + f[1] == msg.header.magic);
    assert(f[2] * 256 + f[3] == msg.header.service_id);
    assert(f[24] * 256 + f[25] == msg.header.data_unit_len);
    assert forall|k: int| 0 <= k < 6 implies f[12 + k] == msg.header.src_addr[k] by {
        assert(f[12 + k] == msg.header.src_addr@[k]);
    }
    assert forall|k: int| 0 <= k < 6 implies f[18 + k] == msg.header.dst_addr[k] by {
        assert(f[18 + k] == msg.header.dst_addr@[k]);
    }
    assert forall|k: int| 0 <= k < n implies f[27 + k] == bytes_view(msg.data)[k] by {
    }
}

/// Parsing reads each field of the header at its place in the frame: on a frame
/// whose bytes 0 and 1 are 0x40, the service id is bytes 2 and 3 big-endian, the
/// main and user version bytes 4 and 5, second, minute, hour, day, month and year
/// bytes 6..12, the addresses bytes 12..18 and 18..24, the data length bytes 24
/// and 25 big-endian and the control byte byte 26; the data is the bytes after
/// the header that the data length counts, and the checksum the byte after them.
/// On any other frame, parsing fails with the start marker it found, big-endian.
pub proof fn lemma_parse_layout(s: Seq<u8>)
    requires
        parse_frame_requires(s),
    ensures
        !(s[0] == 0x40 && s[1] == 0x40) ==> spec_parse_frame(s) == Err::<crate::protocol::gb26875::types::MessageView, _>(
            ProtocolErrorView::InvalidMagic {
                expected: 0x4040,
                got: (s[0] * 256 + s[1]) as u16,
            },
        ),
        s[0] == 0x40 && s[1] == 0x40 ==> ({
            let n = s[24] * 256 + s[25];
            &&& spec_parse_frame(s) is Ok
            &&& s.len() >= 30 + n
            &&& spec_parse_frame(s)->Ok_0.header.magic == 0x4040
            &&& spec_parse_frame(s)->Ok_0.header.service_id == s[2] * 256 + s[3]
            &&& spec_parse_frame(s)->Ok_0.header.version.main_version == s[4]
            &&& spec_parse_frame(s)->Ok_0.header.version.user_version == s[5]
            &&& spec_parse_frame(s)->Ok_0.header.timestamp.second == s[6]
            &&& spec_parse_frame(s)->Ok_0.header.timestamp.minute == s[7]
            &&& spec_parse_frame(s)->Ok_0.header.timestamp.hour == s[8]
            &&& spec_parse_frame(s)->Ok_0.header.timestamp.day == s[9]
            &&& spec_parse_frame(s)->Ok_0.header.timestamp.month == s[10]
            &&& spec_parse_frame(s)->Ok_0.header.timestamp.year == s[11]
            &&& spec_parse_frame(s)->Ok_0.header.src_addr.len() == 6
            &&& forall|k: int| 0 <= k < 6 ==> spec_parse_frame(s)->Ok_0.header.src_addr[k] == s[12 + k]
            &&& spec_parse_frame(s)->Ok_0.header.dst_addr.len() == 6
            &&& forall|k: int| 0 <= k < 6 ==> spec_parse_frame(s)->Ok_0.header.dst_addr[k] == s[18 + k]
            &&& spec_parse_frame(s)->Ok_0.header.data_unit_len == n
            &&& spec_parse_frame(s)->Ok_0.header.control == s[26]
            &&& spec_parse_frame(s)->Ok_0.data.len() == n
            &&& forall|k: int| 0 <= k < n ==> spec_parse_frame(s)->Ok_0.data[k] == s[27 + k]
            &&& spec_parse_frame(s)->Ok_0.checksum == s[27 + n]
        }),
{
    if s[0] == 0x40 && s[1] == 0x40 {
        assert(be_u16_at(s, 0) == MAGIC_NUMBER);
    } else {
        assert(be_u16_at(s, 0) != MAGIC_NUMBER);
    }
}

} // verus!
