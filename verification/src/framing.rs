use vstd::prelude::*;
use vstd::arithmetic::div_mod::lemma_div_denominator;

verus! {

/// The `n` low bytes of `x`, least significant first.
pub open spec fn le_bytes(x: nat, n: nat) -> Seq<u8>
    decreases n,
{
    if n == 0 {
        Seq::empty()
    } else {
        seq![(x % 256) as u8] + le_bytes(x / 256, (n - 1) as nat)
    }
}

/// The value of four bytes read least significant first.
pub open spec fn le_value4(b: Seq<u8>) -> nat {
    (b[0] + 256 * b[1] + 65536 * b[2] + 16777216 * b[3]) as nat
}

/// The header that goes before every frame sent to the gateway: width,
/// height, capture time in milliseconds and payload length, each
/// little-endian (4, 4, 8 and 4 bytes).
pub open spec fn frame_header_bytes(width: u32, height: u32, timestamp_ms: u64, payload_len: u32) -> Seq<
    u8,
> {
    le_bytes(width as nat, 4) + le_bytes(height as nat, 4) + le_bytes(timestamp_ms as nat, 8)
        + le_bytes(payload_len as nat, 4)
}

/// Length of the header before every frame.
pub open spec fn frame_header_len() -> nat {
    20
}

/// `le_bytes` yields exactly `n` bytes.
proof fn lemma_le_bytes_len(x: nat, n: nat)
    ensures
        le_bytes(x, n).len() == n,
    decreases n,
{
    if n > 0 {
        lemma_le_bytes_len(x / 256, (n - 1) as nat);
    }
}

/// Appends the `n` low bytes of `x` to `out`, least significant first.
fn push_le(out: &mut Vec<u8>, x: u64, n: usize)
    ensures
        final(out)@ == old(out)@ + le_bytes(x as nat, n as nat),
    decreases n,
{
    if n > 0 {
        out.push((x % 256) as u8);
        push_le(out, x / 256, n - 1);
        assert(final(out)@ =~= old(out)@ + le_bytes(x as nat, n as nat));
    } else {
        assert(final(out)@ =~= old(out)@ + le_bytes(x as nat, n as nat));
    }
}

/// The 20-byte header that goes before a frame.
pub fn frame_header(width: u32, height: u32, timestamp_ms: u64, payload_len: u32) -> (h: Vec<u8>)
    ensures
        h@ == frame_header_bytes(width, height, timestamp_ms, payload_len),
        h@.len() == frame_header_len(),
{
    let mut h: Vec<u8> = Vec::new();
    push_le(&mut h, width as u64, 4);
    push_le(&mut h, height as u64, 4);
    push_le(&mut h, timestamp_ms, 8);
    push_le(&mut h, payload_len as u64, 4);
    proof {
        lemma_le_bytes_len(width as nat, 4);
        lemma_le_bytes_len(height as nat, 4);
        lemma_le_bytes_len(timestamp_ms as nat, 8);
        lemma_le_bytes_len(payload_len as nat, 4);
        assert(h@ =~= frame_header_bytes(width, height, timestamp_ms, payload_len));
    }
    h
}

/// The length of a command, from the four bytes before it (least significant first).
pub fn command_length(prefix: &[u8]) -> (n: u32)
    requires
        prefix@.len() == 4,
    ensures
        n == le_value4(prefix@),
{
    let b0 = prefix[0] as u32;
    let b1 = prefix[1] as u32;
    let b2 = prefix[2] as u32;
    let b3 = prefix[3] as u32;
    b0 + 256 * b1 + 65536 * b2 + 16777216 * b3
}

/// Reading four bytes back gives the 32-bit value they were written from:
/// a length written as a prefix is the length read.
pub proof fn lemma_length_round_trip(x: u32)
    ensures
        le_value4(le_bytes(x as nat, 4)) == x,
{
    let v = x as nat;
    reveal_with_fuel(le_bytes, 5);
    lemma_div_denominator(v as int, 256, 256);
    lemma_div_denominator((v / 256) as int, 256, 256);
    lemma_div_denominator(v as int, 65536, 256);
    let b = le_bytes(v, 4);
    assert(b[0] == (v % 256) as u8);
    assert(b[1] == ((v / 256) % 256) as u8);
    assert(b[2] == ((v / 256 / 256) % 256) as u8);
    assert(b[3] == ((v / 256 / 256 / 256) % 256) as u8);
    assert((v % 256) + 256 * ((v / 256) % 256) + 65536 * ((v / 65536) % 256) + 16777216 * ((v
        / 16777216) % 256) == v) by (nonlinear_arith)
        requires
            v < 0x1_0000_0000,
    ;
}

} // verus!
