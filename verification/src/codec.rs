//! The faucet account's persisted record layout.
//!
//! On the host ledger the faucet account is stored as one fixed-size record:
//! an 8-byte discriminator (the framework's tag for this account type),
//! the 8-byte little-endian withdrawal timestamp, the 8-byte little-endian
//! interval, the 32-byte admin identity, and the 1-byte derivation bump —
//! 57 bytes in all. The two signed time fields are stored as their 64-bit
//! two's-complement bit patterns.

use vstd::prelude::*;
use vstd::bytes::{
    spec_u64_to_le_bytes, spec_u64_from_le_bytes, u64_to_le_bytes, u64_from_le_bytes,
    lemma_auto_spec_u64_to_from_le_bytes,
};
use vstd::slice::{slice_subrange, slice_to_vec, slice_index_get};
use crate::identity::Identity;
use crate::faucet::Faucet;

verus! {

broadcast use vstd::array::group_array_axioms;

/// Length of the record's leading account-type tag.
pub const DISCRIMINATOR_LEN: usize = 8;

/// Length of the whole persisted record.
pub const RECORD_LEN: usize = 57;

/// The bytes of the persisted record for state `faucet` under tag `tag`.
pub open spec fn spec_record_bytes(tag: Seq<u8>, faucet: Faucet) -> Seq<u8> {
    tag + spec_u64_to_le_bytes(faucet.last_request_time as u64) + spec_u64_to_le_bytes(
        faucet.interval_period as u64,
    ) + faucet.admin.bytes@ + seq![faucet.bump]
}

/// Serializes the faucet state into its 57-byte persisted record.
pub fn encode_record(tag: &[u8; 8], faucet: &Faucet) -> (out: Vec<u8>)
    ensures
        out@ == spec_record_bytes(tag@, *faucet),
        out@.len() == RECORD_LEN,
{
    let mut out: Vec<u8> = slice_to_vec(tag.as_slice());
    let mut time_bytes = u64_to_le_bytes(faucet.last_request_time as u64);
    out.append(&mut time_bytes);
    let mut interval_bytes = u64_to_le_bytes(faucet.interval_period as u64);
    out.append(&mut interval_bytes);
    proof {
        assert(out@ =~= tag@ + spec_u64_to_le_bytes(faucet.last_request_time as u64)
            + spec_u64_to_le_bytes(faucet.interval_period as u64) + faucet.admin.bytes@.subrange(
            0,
            0,
        ));
    }
    let mut i: usize = 0;
    while i < 32
        invariant
            i <= 32,
            out@ == tag@ + spec_u64_to_le_bytes(faucet.last_request_time as u64)
                + spec_u64_to_le_bytes(faucet.interval_period as u64)
                + faucet.admin.bytes@.subrange(0, i as int),
        decreases 32 - i,
    {
        out.push(faucet.admin.bytes[i]);
        proof {
            assert(out@ =~= tag@ + spec_u64_to_le_bytes(faucet.last_request_time as u64)
                + spec_u64_to_le_bytes(faucet.interval_period as u64)
                + faucet.admin.bytes@.subrange(0, i + 1));
        }
        i += 1;
    }
    out.push(faucet.bump);
    proof {
        lemma_auto_spec_u64_to_from_le_bytes();
        assert(faucet.admin.bytes@.subrange(0, 32) =~= faucet.admin.bytes@);
        assert(out@ =~= spec_record_bytes(tag@, *faucet));
    }
    out
}

/// Deserializes a persisted record back into the faucet state.
///
/// Succeeds exactly on byte strings of the right length that carry the given
/// tag; the decoded state is the one whose record the input is.
pub fn decode_record(tag: &[u8; 8], bytes: &[u8]) -> (r: Option<Faucet>)
    ensures
        r is Some <==> (bytes@.len() == RECORD_LEN && bytes@.subrange(
            0,
            DISCRIMINATOR_LEN as int,
        ) == tag@),
        r matches Some(faucet) ==> bytes@ == spec_record_bytes(tag@, faucet),
{
    if bytes.len() != RECORD_LEN {
        return None;
    }
    let mut i: usize = 0;
    while i < 8
        invariant
            i <= 8,
            bytes@.len() == RECORD_LEN,
            forall|j: int| 0 <= j < i ==> bytes@[j] == tag@[j],
        decreases 8 - i,
    {
        if *slice_index_get(bytes, i) != tag[i] {
            proof {
                assert(bytes@.subrange(0, DISCRIMINATOR_LEN as int)[i as int] != tag@[i as int]);
            }
            return None;
        }
        i += 1;
    }
    let last_request_time = u64_from_le_bytes(slice_subrange(bytes, 8, 16)) as i64;
    let interval_period = u64_from_le_bytes(slice_subrange(bytes, 16, 24)) as i64;
    let mut admin_bytes: [u8; 32] = [0u8; 32];
    let mut i: usize = 0;
    while i < 32
        invariant
            i <= 32,
            bytes@.len() == RECORD_LEN,
            forall|j: int| 0 <= j < i ==> admin_bytes@[j] == bytes@[24 + j],
        decreases 32 - i,
    {
        admin_bytes[i] = *slice_index_get(bytes, 24 + i);
        i += 1;
    }
    let bump = *slice_index_get(bytes, 56);
    let faucet = Faucet {
        last_request_time,
        interval_period,
        admin: Identity { bytes: admin_bytes },
        bump,
    };
    proof {
        lemma_auto_spec_u64_to_from_le_bytes();
        lemma_i64_u64_cast_roundtrip(spec_u64_from_le_bytes(bytes@.subrange(8, 16)));
        lemma_i64_u64_cast_roundtrip(spec_u64_from_le_bytes(bytes@.subrange(16, 24)));
        assert(bytes@.subrange(0, DISCRIMINATOR_LEN as int) =~= tag@);
        assert(spec_u64_to_le_bytes(faucet.last_request_time as u64) =~= bytes@.subrange(8, 16));
        assert(spec_u64_to_le_bytes(faucet.interval_period as u64) =~= bytes@.subrange(16, 24));
        assert(faucet.admin.bytes@ =~= bytes@.subrange(24, 56));
        assert(bytes@ =~= spec_record_bytes(tag@, faucet));
    }
    Some(faucet)
}

/// Reading a 64-bit two's-complement bit pattern as signed and storing it
/// again as unsigned gives the pattern back.
proof fn lemma_i64_u64_cast_roundtrip(x: u64)
    ensures
        (x as i64) as u64 == x,
{
    assert((x as i64) as u64 == x) by (bit_vector);
}

/// Storing a signed 64-bit value as its bit pattern and reading the pattern
/// back as signed gives the value back.
proof fn lemma_u64_i64_cast_roundtrip(x: i64)
    ensures
        (x as u64) as i64 == x,
{
    assert((x as u64) as i64 == x) by (bit_vector);
}

/// No two faucet states share a persisted record: the record determines the
/// state. Together with the contract of `decode_record` this gives the round
/// trip — decoding the record a state was encoded to yields that state.
pub proof fn lemma_record_injective(tag: Seq<u8>, faucet1: Faucet, faucet2: Faucet)
    requires
        tag.len() == DISCRIMINATOR_LEN,
        spec_record_bytes(tag, faucet1) == spec_record_bytes(tag, faucet2),
    ensures
        faucet1 == faucet2,
{
    lemma_auto_spec_u64_to_from_le_bytes();
    let record1 = spec_record_bytes(tag, faucet1);
    let record2 = spec_record_bytes(tag, faucet2);
    assert(spec_u64_to_le_bytes(faucet1.last_request_time as u64) =~= record1.subrange(8, 16));
    assert(spec_u64_to_le_bytes(faucet2.last_request_time as u64) =~= record2.subrange(8, 16));
    assert(spec_u64_to_le_bytes(faucet1.interval_period as u64) =~= record1.subrange(16, 24));
    assert(spec_u64_to_le_bytes(faucet2.interval_period as u64) =~= record2.subrange(16, 24));
    assert(faucet1.last_request_time as u64 == faucet2.last_request_time as u64);
    lemma_u64_i64_cast_roundtrip(faucet1.last_request_time);
    lemma_u64_i64_cast_roundtrip(faucet2.last_request_time);
    assert(faucet1.interval_period as u64 == faucet2.interval_period as u64);
    lemma_u64_i64_cast_roundtrip(faucet1.interval_period);
    lemma_u64_i64_cast_roundtrip(faucet2.interval_period);
    assert(faucet1.admin.bytes@ =~= record1.subrange(24, 56));
    assert(faucet2.admin.bytes@ =~= record2.subrange(24, 56));
    assert(faucet1.admin.bytes =~= faucet2.admin.bytes);
    assert(faucet1.bump == record1[56]);
    assert(faucet2.bump == record2[56]);
}

} // verus!
