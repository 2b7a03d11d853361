//! The reader's framed command/response protocol: length-prefixed frames with a
//! length checksum and a data checksum, and the fixed acknowledgment pattern.
use vstd::prelude::*;

verus! {

pub const PN532_PREAMBLE: u8 = 0x00;
pub const PN532_STARTCODE1: u8 = 0x00;
pub const PN532_STARTCODE2: u8 = 0xFF;
pub const PN532_POSTAMBLE: u8 = 0x00;
/// Direction byte of a frame sent by the host.
pub const PN532_HOSTTOPN532: u8 = 0xD4;
/// Direction byte of a frame sent by the module.
pub const PN532_PN532TOHOST: u8 = 0xD5;
/// The longest parameter list a frame can carry: its length byte counts the
/// direction byte, the command byte and the parameters.
pub const MAX_PARAMS: usize = 253;

/// The sum of the bytes, as an integer.
pub open spec fn byte_sum(s: Seq<u8>) -> int
    decreases s.len(),
{
    if s.len() == 0 {
        0
    } else {
        byte_sum(s.drop_last()) + s.last()
    }
}

/// The two's-complement negation of `x` modulo 256: the byte that brings `x` to a
/// multiple of 256.
pub open spec fn neg_byte(x: int) -> u8 {
    ((256 - x % 256) % 256) as u8
}

/// Direction byte, command byte and parameters: the part of a command frame that
/// its length and data checksum cover.
pub open spec fn command_body(cmd: u8, params: Seq<u8>) -> Seq<u8> {
    seq![PN532_HOSTTOPN532, cmd] + params
}

/// The complete command frame for `cmd` with `params`.
pub open spec fn command_frame(cmd: u8, params: Seq<u8>) -> Seq<u8> {
    let body = command_body(cmd, params);
    seq![PN532_PREAMBLE, PN532_STARTCODE1, PN532_STARTCODE2, body.len() as u8, neg_byte(
        body.len() as int,
    )] + body + seq![neg_byte(byte_sum(body)), PN532_POSTAMBLE]
}

/// The index of the first non-zero byte of `s` at or after `i`, or `s.len()`.
pub open spec fn skip_zeros(s: Seq<u8>, i: int) -> int
    decreases s.len() - i,
{
    if 0 <= i < s.len() && s[i] == 0 {
        skip_zeros(s, i + 1)
    } else {
        i
    }
}

/// The payload of the response frame in `s`: after leading zero padding comes the
/// start code, then the length and its checksum, then `length` payload bytes and the
/// data checksum. `None` where any part is missing or a checksum does not cancel.
pub open spec fn frame_payload(s: Seq<u8>) -> Option<Seq<u8>> {
    let o = skip_zeros(s, 0);
    if o + 2 < s.len() && s[o] == PN532_STARTCODE2 && (s[o + 1] + s[o + 2]) % 256 == 0 && o + 3
        + s[o + 1] < s.len() && byte_sum(s.subrange(o + 3, o + 4 + s[o + 1])) % 256 == 0 {
        Some(s.subrange(o + 3, o + 3 + s[o + 1]))
    } else {
        None
    }
}

/// The bytes a `Vec` option holds, as a sequence option.
pub open spec fn opt_view(r: Option<Vec<u8>>) -> Option<Seq<u8>> {
    match r {
        Some(v) => Some(v@),
        None => None,
    }
}

/// The acknowledgment the module sends after accepting a command frame.
pub open spec fn ack_pattern() -> Seq<u8> {
    seq![0x00u8, 0x00u8, 0xFFu8, 0x00u8, 0xFFu8, 0x00u8]
}

proof fn lemma_skip_zeros_from(s: Seq<u8>, i: int)
    requires
        0 <= i,
    ensures
        i <= skip_zeros(s, i),
    decreases s.len() - i,
{
    if 0 <= i < s.len() && s[i] == 0 {
        lemma_skip_zeros_from(s, i + 1);
    }
}

proof fn lemma_byte_sum_push(s: Seq<u8>, b: u8)
    ensures
        byte_sum(s.push(b)) == byte_sum(s) + b,
{
    assert(s.push(b).drop_last() =~= s);
}

proof fn lemma_byte_sum_bounds(s: Seq<u8>)
    ensures
        0 <= byte_sum(s) <= 255 * s.len(),
    decreases s.len(),
{
    if s.len() > 0 {
        lemma_byte_sum_bounds(s.drop_last());
    }
}

/// The byte-wise sum of `buf[lo..hi]`, wrapping at 256.
fn sum_range(buf: &[u8], lo: usize, hi: usize) -> (r: u8)
    requires
        lo <= hi <= buf@.len(),
    ensures
        r == byte_sum(buf@.subrange(lo as int, hi as int)) % 256,
{
    let mut acc: u8 = 0;
    let mut i: usize = lo;
    assert(buf@.subrange(lo as int, lo as int) =~= Seq::<u8>::empty());
    while i < hi
        invariant
            lo <= i <= hi <= buf@.len(),
            acc == byte_sum(buf@.subrange(lo as int, i as int)) % 256,
        decreases hi - i,
    {
        proof {
            assert(buf@.subrange(lo as int, i + 1) =~= buf@.subrange(lo as int, i as int).push(
                buf@[i as int],
            ));
            lemma_byte_sum_push(buf@.subrange(lo as int, i as int), buf@[i as int]);
        }
        acc = acc.wrapping_add(buf[i]);
        i = i + 1;
    }
    acc
}

/// A copy of `buf[lo..hi]`.
pub(crate) fn copy_range(buf: &[u8], lo: usize, hi: usize) -> (r: Vec<u8>)
    requires
        lo <= hi <= buf@.len(),
    ensures
        r@ == buf@.subrange(lo as int, hi as int),
{
    let mut out: Vec<u8> = Vec::new();
    let mut i: usize = lo;
    while i < hi
        invariant
            lo <= i <= hi <= buf@.len(),
            out@ == buf@.subrange(lo as int, i as int),
        decreases hi - i,
    {
        out.push(buf[i]);
        i = i + 1;
        assert(out@ =~= buf@.subrange(lo as int, i as int));
    }
    out
}

/// Builds the frame that sends command `cmd` with `params` to the module.
pub fn encode_command(cmd: u8, params: &[u8]) -> (frame: Vec<u8>)
    requires
        params@.len() <= MAX_PARAMS,
    ensures
        frame@ == command_frame(cmd, params@),
{
    let ghost body = command_body(cmd, params@);
    let mut data: Vec<u8> = Vec::new();
    data.push(PN532_HOSTTOPN532);
    data.push(cmd);
    let mut i: usize = 0;
    while i < params.len()
        invariant
            i <= params@.len(),
            data@ == seq![PN532_HOSTTOPN532, cmd] + params@.subrange(0, i as int),
        decreases params@.len() - i,
    {
        data.push(params[i]);
        i = i + 1;
        assert(data@ =~= seq![PN532_HOSTTOPN532, cmd] + params@.subrange(0, i as int));
    }
    assert(data@ =~= body);
    let len = data.len() as u8;
    let lcs = 0u8.wrapping_sub(len);
    let checksum = sum_range(data.as_slice(), 0, data.len());
    assert(data@.subrange(0, data@.len() as int) =~= body);
    let dcs = 0u8.wrapping_sub(checksum);
    let mut frame: Vec<u8> = Vec::new();
    frame.push(PN532_PREAMBLE);
    frame.push(PN532_STARTCODE1);
    frame.push(PN532_STARTCODE2);
    frame.push(len);
    frame.push(lcs);
    let ghost head = frame@;
    let mut j: usize = 0;
    while j < data.len()
        invariant
            j <= data@.len(),
            data@ == body,
            frame@ == head + data@.subrange(0, j as int),
        decreases data@.len() - j,
    {
        frame.push(data[j]);
        j = j + 1;
        assert(frame@ =~= head + data@.subrange(0, j as int));
    }
    frame.push(dcs);
    frame.push(PN532_POSTAMBLE);
    proof {
        lemma_byte_sum_bounds(body);
        assert(head =~= seq![PN532_PREAMBLE, PN532_STARTCODE1, PN532_STARTCODE2, body.len() as u8, neg_byte(body.len() as int)]);
        assert(frame@ =~= command_frame(cmd, params@));
    }
    frame
}


/// Extracts the payload of the response frame in `raw`; `None` where the frame is
/// absent, truncated or fails either checksum.
pub fn decode_response(raw: &[u8]) -> (r: Option<Vec<u8>>)
    ensures
        opt_view(r) == frame_payload(raw@),
{
    let ghost s = raw@;
    let n = raw.len();
    let mut offset: usize = 0;
    while offset < n && raw[offset] == 0x00
        invariant
            s == raw@,
            n == s.len(),
            offset <= n,
            skip_zeros(s, offset as int) == skip_zeros(s, 0),
        decreases n - offset,
    {
        assert(skip_zeros(s, offset as int) == skip_zeros(s, offset + 1));
        offset = offset + 1;
    }
    assert(skip_zeros(s, offset as int) == offset);
    if offset >= n || n - offset <= 2 || raw[offset] != PN532_STARTCODE2 {
        return None;
    }
    let frame_len = raw[offset + 1];
    if frame_len.wrapping_add(raw[offset + 2]) != 0 {
        return None;
    }
    let start = offset + 3;
    if n - start <= frame_len as usize {
        return None;
    }
    let end = start + frame_len as usize;
    let checksum = sum_range(raw, start, end + 1);
    if checksum != 0 {
        return None;
    }
    Some(copy_range(raw, start, end))
}

/// Whether `buf` is exactly the acknowledgment pattern.
pub fn is_ack(buf: &[u8]) -> (r: bool)
    ensures
        r == (buf@ == ack_pattern()),
{
    let expected: [u8; 6] = [0x00, 0x00, 0xFF, 0x00, 0xFF, 0x00];
    assert(expected@ =~= ack_pattern());
    if buf.len() != 6 {
        return false;
    }
    let mut i: usize = 0;
    while i < 6
        invariant
            i <= 6,
            buf@.len() == 6,
            expected@ == ack_pattern(),
            forall|k: int| 0 <= k < i ==> buf@[k] == ack_pattern()[k],
        decreases 6 - i,
    {
        if buf[i] != expected[i] {
            return false;
        }
        i = i + 1;
    }
    assert(buf@ =~= ack_pattern());
    true
}

/// A command frame checks out: its length byte and length checksum sum to zero
/// modulo 256, and so do the bytes that the length covers and the data checksum,
/// and reading it back as a frame gives exactly those covered bytes.
pub proof fn lemma_encode_round_trip(cmd: u8, params: Seq<u8>)
    requires
        params.len() <= MAX_PARAMS,
    ensures
        ({
            let f = command_frame(cmd, params);
            let body = command_body(cmd, params);
            &&& (f[3] + f[4]) % 256 == 0
            &&& (byte_sum(body) + f[5 + body.len() as int]) % 256 == 0
            &&& byte_sum(f.subrange(5, 6 + f[3])) % 256 == 0
            &&& frame_payload(f) == Some(body)
        }),
{
    let f = command_frame(cmd, params);
    let body = command_body(cmd, params);
    let dcs = neg_byte(byte_sum(body));
    lemma_byte_sum_bounds(body);
    assert(f[3] == body.len());
    assert(f[5 + body.len() as int] == dcs);
    assert(skip_zeros(f, 2) == 2);
    assert(skip_zeros(f, 1) == 2);
    assert(skip_zeros(f, 0) == 2);
    assert(f.subrange(5, 6 + f[3]) =~= body.push(dcs));
    lemma_byte_sum_push(body, dcs);
    assert(f.subrange(5, 5 + f[3]) =~= body);
}

/// A buffer without the start code holds no frame, and neither does one whose
/// declared payload and data checksum do not sum to zero modulo 256.
pub proof fn lemma_decode_rejects(s: Seq<u8>)
    ensures
        (forall|i: int| 0 <= i < s.len() ==> s[i] != PN532_STARTCODE2) ==> frame_payload(s)
            is None,
        ({
            let o = skip_zeros(s, 0);
            o + 3 < s.len() && o + 3 + s[o + 1] < s.len() && byte_sum(
                s.subrange(o + 3, o + 4 + s[o + 1]),
            ) % 256 != 0
        }) ==> frame_payload(s) is None,
{
    lemma_skip_zeros_from(s, 0);
}

} // verus!
