use vstd::prelude::*;
use crate::util::{be_u32, read_u32, Error};

verus! {

/// The largest header length that fits in the low 24 bits of the second field.
pub const MAX_HEADER_LEN: usize = 0xFF_FFFF;

/// The four big-endian bytes of `n`.
pub open spec fn u32_bytes(n: int) -> Seq<u8> {
    seq![
        (n / 0x100_0000 % 0x100) as u8,
        (n / 0x1_0000 % 0x100) as u8,
        (n / 0x100 % 0x100) as u8,
        (n % 0x100) as u8,
    ]
}

/// Whether a header of `h` bytes and a body of `b` bytes fit in one frame.
pub open spec fn fits_frame(h: int, b: int) -> bool {
    h <= MAX_HEADER_LEN && 4 + h + b <= u32::MAX
}

/// The frame that carries `header` and `body`:
/// `[total_length][header_length_and_flag][header][body]`, with flag 0.
pub open spec fn frame_bytes(header: Seq<u8>, body: Seq<u8>) -> Seq<u8> {
    u32_bytes(4 + header.len() as int + body.len() as int) + u32_bytes(header.len() as int) + header + body
}

/// The `total_length` field of `data`.
pub open spec fn total_len_of(data: Seq<u8>) -> int {
    be_u32(data[0], data[1], data[2], data[3])
}

/// The header length: the low 24 bits of the second field of `data`.
pub open spec fn header_len_of(data: Seq<u8>) -> int {
    be_u32(data[4], data[5], data[6], data[7]) % 0x100_0000
}

/// Whether `data` starts with one whole frame whose header lies inside it.
pub open spec fn frame_ok(data: Seq<u8>) -> bool {
    &&& data.len() >= 8
    &&& 4 + header_len_of(data) <= total_len_of(data)
    &&& 4 + total_len_of(data) <= data.len()
}

/// The header bytes of a well-formed frame.
pub open spec fn frame_header(data: Seq<u8>) -> Seq<u8> {
    data.subrange(8, 8 + header_len_of(data))
}

/// The body bytes of a well-formed frame.
pub open spec fn frame_body(data: Seq<u8>) -> Seq<u8> {
    data.subrange(8 + header_len_of(data), 4 + total_len_of(data))
}

proof fn lemma_u32_bytes_value(n: int)
    requires
        0 <= n <= u32::MAX,
    ensures
        be_u32(u32_bytes(n)[0], u32_bytes(n)[1], u32_bytes(n)[2], u32_bytes(n)[3]) == n,
{
    assert(be_u32(u32_bytes(n)[0], u32_bytes(n)[1], u32_bytes(n)[2], u32_bytes(n)[3])
        == (n / 0x100_0000 % 0x100) * 0x100_0000 + (n / 0x1_0000 % 0x100) * 0x1_0000
            + (n / 0x100 % 0x100) * 0x100 + n % 0x100);
    assert((n / 0x100_0000 % 0x100) * 0x100_0000 + (n / 0x1_0000 % 0x100) * 0x1_0000
        + (n / 0x100 % 0x100) * 0x100 + n % 0x100 == n) by (nonlinear_arith)
        requires
            0 <= n <= u32::MAX,
    ;
}

fn push_u32(out: &mut Vec<u8>, n: u32)
    ensures
        final(out)@ == old(out)@ + u32_bytes(n as int),
{
    out.push((n / 0x100_0000 % 0x100) as u8);
    out.push((n / 0x1_0000 % 0x100) as u8);
    out.push((n / 0x100 % 0x100) as u8);
    out.push((n % 0x100) as u8);
    assert(final(out)@ == old(out)@ + u32_bytes(n as int));
}

fn push_all(out: &mut Vec<u8>, src: &[u8])
    ensures
        final(out)@ == old(out)@ + src@,
{
    let mut i: usize = 0;
    while i < src.len()
        invariant
            i <= src@.len(),
            out@ == old(out)@ + src@.subrange(0, i as int),
        decreases src@.len() - i,
    {
        out.push(src[i]);
        i = i + 1;
        assert(src@.subrange(0, i as int) == src@.subrange(0, i - 1 as int).push(src@[i - 1]));
    }
    assert(src@.subrange(0, src@.len() as int) == src@);
}

/// Builds the frame that carries `header` and `body`.
pub fn encode_frame(header: &[u8], body: &[u8]) -> (r: Vec<u8>)
    requires
        fits_frame(header@.len() as int, body@.len() as int),
    ensures
        r@ == frame_bytes(header@, body@),
{
    let total: u32 = (4 + header.len() + body.len()) as u32;
    let mut out: Vec<u8> = Vec::new();
    push_u32(&mut out, total);
    push_u32(&mut out, header.len() as u32);
    push_all(&mut out, header);
    push_all(&mut out, body);
    out
}

fn copy_range(data: &[u8], lo: usize, hi: usize) -> (r: Vec<u8>)
    requires
        lo <= hi <= data@.len(),
    ensures
        r@ == data@.subrange(lo as int, hi as int),
{
    let mut out: Vec<u8> = Vec::new();
    let mut i: usize = lo;
    while i < hi
        invariant
            lo <= i <= hi <= data@.len(),
            out@ == data@.subrange(lo as int, i as int),
        decreases hi - i,
    {
        out.push(data[i]);
        i = i + 1;
        assert(data@.subrange(lo as int, i as int)
            == data@.subrange(lo as int, i - 1 as int).push(data@[i - 1]));
    }
    out
}

/// Splits the frame at the start of `data` into its header bytes and its body.
/// Bytes after the frame are ignored; a short or inconsistent frame is an error.
pub fn decode_frame(data: &[u8]) -> (r: Result<(Vec<u8>, Vec<u8>), Error>)
    ensures
        r is Ok <==> frame_ok(data@),
        r matches Ok((h, b)) ==> h@ == frame_header(data@) && b@ == frame_body(data@),
        r matches Err(e) ==> e is DecodeCommandError,
{
    if data.len() < 8 {
        return Err(Error::DecodeCommandError("frame shorter than its preamble".to_string()));
    }
    let total = read_u32(data) as usize;
    let hlf = read_u32(&data[4..8]);
    assert(data@.subrange(4, 8)[0] == data@[4] && data@.subrange(4, 8)[1] == data@[5]
        && data@.subrange(4, 8)[2] == data@[6] && data@.subrange(4, 8)[3] == data@[7]);
    let header_len = (hlf % 0x100_0000) as usize;
    if total < 4 || total - 4 < header_len {
        return Err(Error::DecodeCommandError("header longer than frame".to_string()));
    }
    if data.len() - 4 < total {
        return Err(Error::DecodeCommandError("frame truncated".to_string()));
    }
    let header = copy_range(data, 8, 8 + header_len);
    let body = copy_range(data, 8 + header_len, 4 + total);
    Ok((header, body))
}

/// Decoding the frame built from a header and a body gives back that header and that body.
pub proof fn lemma_frame_round_trip(header: Seq<u8>, body: Seq<u8>)
    requires
        fits_frame(header.len() as int, body.len() as int),
    ensures
        frame_ok(frame_bytes(header, body)),
        frame_header(frame_bytes(header, body)) == header,
        frame_body(frame_bytes(header, body)) == body,
{
    let data = frame_bytes(header, body);
    let t: int = 4 + header.len() as int + body.len() as int;
    let hl = header.len() as int;
    lemma_u32_bytes_value(t);
    lemma_u32_bytes_value(hl);
    assert(data[0] == u32_bytes(t)[0] && data[1] == u32_bytes(t)[1] && data[2] == u32_bytes(t)[2]
        && data[3] == u32_bytes(t)[3]);
    assert(data[4] == u32_bytes(hl)[0] && data[5] == u32_bytes(hl)[1] && data[6] == u32_bytes(hl)[2]
        && data[7] == u32_bytes(hl)[3]);
    assert(total_len_of(data) == t);
    assert(header_len_of(data) == hl);
    assert(data.len() == 8 + hl + body.len());
    assert(frame_header(data) =~= header);
    assert(frame_body(data) =~= body);
}

/// A frame that lost its last byte is rejected.
pub proof fn lemma_truncated_frame_rejected(header: Seq<u8>, body: Seq<u8>)
    requires
        fits_frame(header.len() as int, body.len() as int),
    ensures
        !frame_ok(frame_bytes(header, body).drop_last()),
{
    lemma_frame_round_trip(header, body);
    let data = frame_bytes(header, body);
    let cut = data.drop_last();
    assert(cut[0] == data[0] && cut[1] == data[1] && cut[2] == data[2] && cut[3] == data[3]);
    assert(total_len_of(cut) == total_len_of(data));
}

} // verus!
