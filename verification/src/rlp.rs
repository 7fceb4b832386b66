//! Recursive Length Prefix (RLP) primitives, as encoded and decoded by `alloy_rlp`.
//!
//! The encodings are stated here as short spec functions; the decoders are
//! canonical, so each accepts a buffer exactly when it starts with the encoding
//! of some value, and then hands back that value and the rest of the buffer.
use vstd::prelude::*;

verus! {

/// The big-endian bytes of `x` with the leading zero bytes removed (empty for zero).
pub open spec fn be_trimmed(x: nat) -> Seq<u8>
    decreases x,
{
    if x == 0 {
        Seq::empty()
    } else {
        be_trimmed(x / 256).push((x % 256) as u8)
    }
}

/// RLP encoding of an unsigned integer.
pub open spec fn rlp_uint(x: nat) -> Seq<u8> {
    if x == 0 {
        seq![0x80u8]
    } else if x < 0x80 {
        seq![x as u8]
    } else {
        seq![(0x80 + be_trimmed(x).len()) as u8] + be_trimmed(x)
    }
}

/// RLP encoding of a 32-byte string.
pub open spec fn rlp_bytes32(b: Seq<u8>) -> Seq<u8> {
    seq![0xa0u8] + b
}

/// RLP header of a list whose payload is `len` bytes long.
pub open spec fn rlp_list_header(len: nat) -> Seq<u8> {
    if len < 56 {
        seq![(0xc0 + len) as u8]
    } else {
        seq![(0xf7 + be_trimmed(len).len()) as u8] + be_trimmed(len)
    }
}

/// `buf` begins with `prefix`.
pub open spec fn starts_with(buf: Seq<u8>, prefix: Seq<u8>) -> bool {
    prefix.len() <= buf.len() && buf.take(prefix.len() as int) == prefix
}

/// What `alloy_rlp::Header::decode` makes of a buffer: the list flag, the
/// payload length and the rest of the buffer after the header, or `None`
/// where it fails.
pub uninterp spec fn rlp_header_decoding(buf: Seq<u8>) -> Option<(bool, nat, Seq<u8>)>;

#[verifier::external_type_specification]
#[verifier::external_body]
pub struct ExRlpError(alloy_rlp::Error);

/// Outcome of an `alloy_rlp` decoder.
pub type RlpResult<T> = Result<T, alloy_rlp::Error>;

/// Calls `alloy_rlp::encode` on a `u64`; the claim is that the bytes are the
/// canonical RLP integer encoding (single byte below 0x80, else a length byte
/// and the trimmed big-endian bytes).
#[verifier::external_body]
pub(crate) fn rlp_encode_u64(x: u64) -> (out: Vec<u8>)
    ensures
        out@ == rlp_uint(x as nat),
{
    alloy_rlp::encode(x)
}

/// Calls `alloy_rlp::encode` on a `u8`; same claim as for `u64`.
#[verifier::external_body]
pub(crate) fn rlp_encode_u8(x: u8) -> (out: Vec<u8>)
    ensures
        out@ == rlp_uint(x as nat),
{
    alloy_rlp::encode(x)
}

/// Calls `alloy_rlp::encode` on a 32-byte array; the claim is that the bytes
/// are `0xa0` followed by the array.
#[verifier::external_body]
pub(crate) fn rlp_encode_bytes32(b: &[u8; 32]) -> (out: Vec<u8>)
    ensures
        out@ == rlp_bytes32(b@),
{
    alloy_rlp::encode(*b)
}

/// Calls `alloy_rlp::Header::encode` on a list header; the claim is that the
/// bytes are the short form `0xc0 + len` below 56, else `0xf7` plus the length
/// of the trimmed length bytes, followed by them.
#[verifier::external_body]
pub(crate) fn rlp_encode_list_header(payload_length: usize) -> (out: Vec<u8>)
    ensures
        out@ == rlp_list_header(payload_length as nat),
{
    let mut out: Vec<u8> = Vec::new();
    alloy_rlp::Header { list: true, payload_length }.encode(&mut out);
    out
}

/// Calls `alloy_rlp::Header::decode`. Its result is named by
/// `rlp_header_decoding`; the claims beside the name are that the rest of the
/// buffer is a suffix holding at least the payload, that a first byte below
/// 0x80 is a one-byte string payload with no header, and that list headers are
/// decoded canonically (exactly the bytes of `rlp_list_header`).
#[verifier::external_body]
pub(crate) fn rlp_decode_header(buf: &[u8]) -> (res: RlpResult<(bool, usize, &[u8])>)
    ensures
        match res {
            Ok((list, n, rest)) => rlp_header_decoding(buf@) == Some((list, n as nat, rest@)),
            Err(_) => rlp_header_decoding(buf@) is None,
        },
        res matches Ok((list, n, rest)) ==> rest@.len() <= buf@.len() && rest@ == buf@.skip(
            buf@.len() - rest@.len(),
        ) && n <= rest@.len(),
        buf@.len() > 0 && buf@[0] < 0x80 ==> res is Ok && !res->Ok_0.0 && res->Ok_0.1 == 1
            && res->Ok_0.2@ == buf@,
        forall|len: nat|
            #[trigger] starts_with(buf@, rlp_list_header(len)) && buf@.len() - rlp_list_header(
                len,
            ).len() >= len ==> res is Ok && res->Ok_0.0 && res->Ok_0.1 == len && res->Ok_0.2@
                == buf@.skip(rlp_list_header(len).len() as int),
        res is Ok && res->Ok_0.0 ==> buf@ == rlp_list_header(res->Ok_0.1 as nat) + res->Ok_0.2@,
{
    let mut rest = buf;
    match alloy_rlp::Header::decode(&mut rest) {
        Ok(h) => Ok((h.list, h.payload_length, rest)),
        Err(e) => Err(e),
    }
}

/// Calls `<u64 as alloy_rlp::Decodable>::decode`; the claim is that it is
/// canonical: it succeeds exactly on buffers starting with `rlp_uint(x)`, and
/// then yields `x` and the bytes after that encoding.
#[verifier::external_body]
pub(crate) fn rlp_decode_u64(buf: &[u8]) -> (res: RlpResult<(u64, &[u8])>)
    ensures
        res matches Ok((x, rest)) ==> buf@ == rlp_uint(x as nat) + rest@,
        forall|x: u64| #[trigger]
            starts_with(buf@, rlp_uint(x as nat)) ==> res is Ok && res->Ok_0.0 == x
                && res->Ok_0.1@ == buf@.skip(rlp_uint(x as nat).len() as int),
{
    let mut rest = buf;
    match <u64 as alloy_rlp::Decodable>::decode(&mut rest) {
        Ok(x) => Ok((x, rest)),
        Err(e) => Err(e),
    }
}

/// Calls `<u8 as alloy_rlp::Decodable>::decode`; same claim as for `u64`.
#[verifier::external_body]
pub(crate) fn rlp_decode_u8(buf: &[u8]) -> (res: RlpResult<(u8, &[u8])>)
    ensures
        res matches Ok((x, rest)) ==> buf@ == rlp_uint(x as nat) + rest@,
        forall|x: u8| #[trigger]
            starts_with(buf@, rlp_uint(x as nat)) ==> res is Ok && res->Ok_0.0 == x
                && res->Ok_0.1@ == buf@.skip(rlp_uint(x as nat).len() as int),
{
    let mut rest = buf;
    match <u8 as alloy_rlp::Decodable>::decode(&mut rest) {
        Ok(x) => Ok((x, rest)),
        Err(e) => Err(e),
    }
}

/// Calls `<[u8; 32] as alloy_rlp::Decodable>::decode`; the claim is that it
/// succeeds exactly on buffers starting with `0xa0` and 32 more bytes, and then
/// yields those 32 bytes and the rest.
#[verifier::external_body]
pub(crate) fn rlp_decode_bytes32(buf: &[u8]) -> (res: RlpResult<([u8; 32], &[u8])>)
    ensures
        res matches Ok((b, rest)) ==> buf@ == rlp_bytes32(b@) + rest@,
        buf@.len() >= 33 && buf@[0] == 0xa0 ==> res is Ok && res->Ok_0.0@ == buf@.subrange(1, 33) && res->Ok_0.1@ == buf@.skip(33),
{
    let mut rest = buf;
    match <[u8; 32] as alloy_rlp::Decodable>::decode(&mut rest) {
        Ok(b) => Ok((b, rest)),
        Err(e) => Err(e),
    }
}

/// The `Debug` text of an `alloy_rlp::Error`, made by its derived `Debug`
/// impl. Nothing is claimed of the text.
#[verifier::external_body]
pub(crate) fn rlp_error_text(e: &alloy_rlp::Error) -> String {
    format!("{e:?}")
}

} // verus!
