use vstd::prelude::*;
use crate::types::{Action, Storage, StorageId};

verus! {

/// The little-endian bytes of a `u32`.
pub open spec fn u32_le(x: u32) -> Seq<u8> {
    seq![x as u8, (x >> 8u32) as u8, (x >> 16u32) as u8, (x >> 24u32) as u8]
}

/// The little-endian bytes of a `u64`.
pub open spec fn u64_le(x: u64) -> Seq<u8> {
    seq![
        x as u8,
        (x >> 8u64) as u8,
        (x >> 16u64) as u8,
        (x >> 24u64) as u8,
        (x >> 32u64) as u8,
        (x >> 40u64) as u8,
        (x >> 48u64) as u8,
        (x >> 56u64) as u8,
    ]
}

/// The variant index of an action.
pub open spec fn action_code(a: Action) -> u8 {
    match a {
        Action::Increment => 0,
        Action::Decrement => 1,
        Action::Idle => 2,
    }
}

/// The SCALE encoding of a record: quantity, action index, storer.
pub open spec fn encode_record(s: Storage) -> Seq<u8> {
    u32_le(s.num) + seq![action_code(s.action)] + u64_le(s.storer)
}

/// The bytes hashed when a record is created as the `seq`-th one: the record
/// followed by the sequence number, so that equal records never share them.
pub open spec fn creation_preimage(s: Storage, seq: u32) -> Seq<u8> {
    encode_record(s) + u32_le(seq)
}

/// The 256-bit BLAKE2b digest of a byte string.
pub uninterp spec fn blake2_256_of(data: Seq<u8>) -> Seq<u8>;

/// The identifier of a record created as the `seq`-th one.
pub open spec fn storage_id_of(s: Storage, seq: u32) -> Seq<u8> {
    blake2_256_of(creation_preimage(s, seq))
}

/// Relies on `BlakeTwo256::hash` of `sp_runtime` (re-exported by `frame_support`):
/// the BLAKE2b-256 digest of the bytes, which depends on them alone.
#[verifier::external_body]
fn blake2_256(data: &Vec<u8>) -> (r: StorageId)
    ensures
        r@ == blake2_256_of(data@),
{
    <frame_support::sp_runtime::traits::BlakeTwo256 as frame_support::sp_runtime::traits::Hash>::hash(
        data.as_slice(),
    ).0
}

fn push_u32_le(out: &mut Vec<u8>, x: u32)
    ensures
        final(out)@ == old(out)@ + u32_le(x),
{
    out.push(x as u8);
    out.push((x >> 8u32) as u8);
    out.push((x >> 16u32) as u8);
    out.push((x >> 24u32) as u8);
    assert(final(out)@ =~= old(out)@ + u32_le(x));
}

fn push_u64_le(out: &mut Vec<u8>, x: u64)
    ensures
        final(out)@ == old(out)@ + u64_le(x),
{
    out.push(x as u8);
    out.push((x >> 8u64) as u8);
    out.push((x >> 16u64) as u8);
    out.push((x >> 24u64) as u8);
    out.push((x >> 32u64) as u8);
    out.push((x >> 40u64) as u8);
    out.push((x >> 48u64) as u8);
    out.push((x >> 56u64) as u8);
    assert(final(out)@ =~= old(out)@ + u64_le(x));
}

/// The bytes that identify a record created as the `seq`-th one.
pub fn creation_bytes(s: &Storage, seq: u32) -> (r: Vec<u8>)
    ensures
        r@ == creation_preimage(*s, seq),
{
    let mut out: Vec<u8> = Vec::new();
    push_u32_le(&mut out, s.num);
    let code: u8 = match s.action {
        Action::Increment => 0,
        Action::Decrement => 1,
        Action::Idle => 2,
    };
    out.push(code);
    push_u64_le(&mut out, s.storer);
    push_u32_le(&mut out, seq);
    assert(out@ =~= creation_preimage(*s, seq));
    out
}

/// Derives the identifier of a record created as the `seq`-th one.
pub fn derive_id(s: &Storage, seq: u32) -> (r: StorageId)
    ensures
        r@ == storage_id_of(*s, seq),
{
    let bytes = creation_bytes(s, seq);
    blake2_256(&bytes)
}

/// Sequence numbers are recovered from their bytes.
pub proof fn lemma_u32_le_injective(a: u32, b: u32)
    requires
        u32_le(a) == u32_le(b),
    ensures
        a == b,
{
    assert(u32_le(a)[0] == u32_le(b)[0]);
    assert(u32_le(a)[1] == u32_le(b)[1]);
    assert(u32_le(a)[2] == u32_le(b)[2]);
    assert(u32_le(a)[3] == u32_le(b)[3]);
    assert((a as u8 == b as u8 && (a >> 8u32) as u8 == (b >> 8u32) as u8 && (a >> 16u32) as u8
        == (b >> 16u32) as u8 && (a >> 24u32) as u8 == (b >> 24u32) as u8) ==> a == b)
        by (bit_vector);
}

} // verus!
