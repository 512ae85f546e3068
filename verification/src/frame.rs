use vstd::prelude::*;

verus! {

/// Largest body of a per-session control message: a 4-byte little-endian length
/// prefix is followed by at most this many bytes of JSON.
pub const MAX_FRAME_LEN: usize = 256 * 1024;

/// The four little-endian bytes of `n`.
pub open spec fn le_bytes(n: u32) -> Seq<u8> {
    seq![
        (n % 256) as u8,
        ((n / 256) % 256) as u8,
        ((n / 65536) % 256) as u8,
        (n / 16777216) as u8,
    ]
}

/// The number that four little-endian bytes encode.
pub open spec fn le_value(b: Seq<u8>) -> int {
    b[0] + 256 * b[1] + 65536 * b[2] + 16777216 * b[3]
}

/// The bytes of one outbound frame: the body's length, then the body.
pub open spec fn frame_of(body: Seq<u8>) -> Seq<u8> {
    le_bytes(body.len() as u32) + body
}

/// Frames an outbound message body. A body longer than `MAX_FRAME_LEN` is refused
/// (`None`) before anything is sent.
pub fn encode_frame(body: &Vec<u8>) -> (r: Option<Vec<u8>>)
    ensures
        body@.len() > MAX_FRAME_LEN ==> r is None,
        body@.len() <= MAX_FRAME_LEN ==> (r matches Some(f) && f@ == frame_of(body@)),
{
    let len = body.len();
    if len > MAX_FRAME_LEN {
        return None;
    }
    let n = len as u32;
    let mut out: Vec<u8> = Vec::new();
    out.push((n % 256) as u8);
    out.push(((n / 256) % 256) as u8);
    out.push(((n / 65536) % 256) as u8);
    out.push((n / 16777216) as u8);
    let mut i: usize = 0;
    while i < len
        invariant
            len == body@.len(),
            n == len,
            i <= len,
            out@ == le_bytes(n) + body@.take(i as int),
        decreases len - i,
    {
        out.push(body[i]);
        proof {
            assert(body@.take(i + 1) =~= body@.take(i as int).push(body@[i as int]));
        }
        i = i + 1;
    }
    assert(body@.take(len as int) =~= body@);
    Some(out)
}

/// Reads the length prefix of an inbound frame. A length of zero or above
/// `MAX_FRAME_LEN` is invalid (`None`): the reader stops on it.
pub fn inbound_frame_len(header: [u8; 4]) -> (r: Option<usize>)
    ensures
        ({
            let v = le_value(header@);
            if v == 0 || v > MAX_FRAME_LEN {
                r is None
            } else {
                r == Some(v as usize)
            }
        }),
{
    let v: u32 = header[0] as u32 + 256 * (header[1] as u32) + 65536 * (header[2] as u32)
        + 16777216 * (header[3] as u32);
    if v == 0 || v as usize > MAX_FRAME_LEN {
        None
    } else {
        Some(v as usize)
    }
}

/// Decoding a length prefix gives back the length it encodes.
pub proof fn lemma_le_round_trip(n: u32)
    ensures
        le_value(le_bytes(n)) == n,
{
    let b = le_bytes(n);
    assert(b[0] == n % 256);
    assert(b[1] == (n / 256) % 256);
    assert(b[2] == (n / 65536) % 256);
    assert(b[3] == n / 16777216);
    assert(n / 16777216 < 256);
    assert(n == n % 256 + 256 * ((n / 256) % 256) + 65536 * ((n / 65536) % 256) + 16777216 * (n / 16777216))
        by (nonlinear_arith);
}

/// Whatever outbound frame is sent, reading its length prefix back gives the body's
/// length, which the reader accepts unless the body is empty.
pub proof fn lemma_frame_round_trip(body: Seq<u8>)
    requires
        body.len() <= MAX_FRAME_LEN,
    ensures
        le_value(frame_of(body).take(4)) == body.len(),
        frame_of(body).skip(4) == body,
{
    lemma_le_round_trip(body.len() as u32);
    assert(frame_of(body).take(4) =~= le_bytes(body.len() as u32));
    assert(frame_of(body).skip(4) =~= body);
}

} // verus!
