use vstd::prelude::*;
use vstd::arithmetic::div_mod::{lemma_fundamental_div_mod, lemma_multiply_divide_lt};

verus! {

/// `256` to the power `k`.
pub open spec fn pow256(k: nat) -> nat
    decreases k,
{
    if k == 0 {
        1
    } else {
        256 * pow256((k - 1) as nat)
    }
}

/// The `k` low-order bytes of `n`, least significant first.
pub open spec fn le_bytes(n: nat, k: nat) -> Seq<u8>
    decreases k,
{
    if k == 0 {
        seq![]
    } else {
        seq![(n % 256) as u8] + le_bytes(n / 256, (k - 1) as nat)
    }
}

/// The number that bytes stand for, least significant first.
pub open spec fn le_value(s: Seq<u8>) -> nat
    decreases s.len(),
{
    if s.len() == 0 {
        0
    } else {
        s[0] as nat + 256 * le_value(s.drop_first())
    }
}

/// A tagged frame: the tag in 4 bytes, the payload's length in 8 bytes
/// (both little-endian), then the payload. This is how bincode's default
/// configuration writes a `(u32, Vec<u8>)` pair.
pub open spec fn frame(tag: u32, payload: Seq<u8>) -> Seq<u8> {
    le_bytes(tag as nat, 4) + le_bytes(payload.len(), 8) + payload
}

/// Length of a frame's header: the tag and the payload length.
pub open spec fn frame_header_len() -> int {
    12
}

/// The tag that the first four bytes of `b` hold.
pub open spec fn frame_tag(b: Seq<u8>) -> nat {
    le_value(b.subrange(0, 4))
}

/// The payload length that bytes 4 to 12 of `b` hold.
pub open spec fn frame_len(b: Seq<u8>) -> nat {
    le_value(b.subrange(4, 12))
}

/// Whether `b` starts with a complete frame (anything may follow it).
pub open spec fn is_frame(b: Seq<u8>) -> bool {
    b.len() >= frame_header_len() && frame_header_len() + frame_len(b) <= b.len()
}

/// The payload of the frame that `b` starts with.
pub open spec fn frame_payload(b: Seq<u8>) -> Seq<u8> {
    b.subrange(frame_header_len(), frame_header_len() + frame_len(b))
}

proof fn lemma_le_bytes_len(n: nat, k: nat)
    ensures
        le_bytes(n, k).len() == k,
    decreases k,
{
    if k > 0 {
        lemma_le_bytes_len(n / 256, (k - 1) as nat);
    }
}

proof fn lemma_le_round_trip(n: nat, k: nat)
    requires
        n < pow256(k),
    ensures
        le_value(le_bytes(n, k)) == n,
    decreases k,
{
    if k > 0 {
        let s = le_bytes(n, k);
        lemma_le_bytes_len(n / 256, (k - 1) as nat);
        assert(s.drop_first() =~= le_bytes(n / 256, (k - 1) as nat));
        lemma_multiply_divide_lt(n as int, 256, pow256((k - 1) as nat) as int);
        lemma_le_round_trip(n / 256, (k - 1) as nat);
        lemma_fundamental_div_mod(n as int, 256);
    }
}

/// A frame is read back as the tag and payload it was written from.
pub proof fn lemma_frame_round_trip(tag: u32, payload: Seq<u8>)
    requires
        payload.len() < pow256(8),
    ensures
        is_frame(frame(tag, payload)),
        frame_tag(frame(tag, payload)) == tag as nat,
        frame_len(frame(tag, payload)) == payload.len(),
        frame_payload(frame(tag, payload)) == payload,
        frame(tag, payload).len() == frame_header_len() + payload.len(),
{
    let b = frame(tag, payload);
    lemma_le_bytes_len(tag as nat, 4);
    lemma_le_bytes_len(payload.len(), 8);
    reveal_with_fuel(pow256, 5);
    assert(pow256(4) == 4294967296);
    lemma_le_round_trip(tag as nat, 4);
    lemma_le_round_trip(payload.len(), 8);
    assert(b.subrange(0, 4) =~= le_bytes(tag as nat, 4));
    assert(b.subrange(4, 12) =~= le_bytes(payload.len(), 8));
    assert(b.subrange(12, 12 + payload.len() as int) =~= payload);
}

#[verifier::external_type_specification]
#[verifier::external_body]
pub struct ExBincodeErrorKind(bincode::ErrorKind);

/// Relies on `bincode::serialize` (bincode 1.x): its default configuration
/// writes integers fixed-width and little-endian, a `u32` in 4 bytes, a
/// sequence as its length in 8 bytes followed by its elements, and a tuple as
/// its fields in order; with no size limit and a `Vec` as the writer it
/// returns `Ok`.
#[verifier::external_body]
pub(crate) fn bincode_serialize(tag: u32, payload: &Vec<u8>) -> (r: Result<Vec<u8>, Box<bincode::ErrorKind>>)
    ensures
        r is Ok,
        r matches Ok(b) ==> b@ == frame(tag, payload@),
{
    bincode::serialize(&(tag, payload))
}

/// Relies on `bincode::deserialize` (bincode 1.x) for a `(u32, Vec<u8>)`
/// pair: it reads the tag from 4 little-endian bytes and the payload length
/// from the next 8, then that many payload bytes; it fails exactly when the
/// input ends before that, and ignores bytes that follow.
#[verifier::external_body]
pub(crate) fn bincode_deserialize(bytes: &[u8]) -> (r: Result<(u32, Vec<u8>), Box<bincode::ErrorKind>>)
    ensures
        r is Ok <==> is_frame(bytes@),
        r matches Ok(v) ==> v.0 as nat == frame_tag(bytes@) && v.1@ == frame_payload(bytes@),
{
    bincode::deserialize::<(u32, Vec<u8>)>(bytes)
}

} // verus!
