//! A lossless byte encoding of the policy.
//!
//! A policy is a plain data record with no embedded secrets or derived
//! caches, and must round-trip exactly: the ten amount fields are laid out
//! as 16 little-endian bytes each, followed by the two 64-bit limits as
//! 8 little-endian bytes each, 176 bytes in all.

use vstd::bytes::*;
use vstd::prelude::*;
use vstd::slice::slice_subrange;

use crate::amount::Amount;
use crate::amount::lemma_from_atto_of_view;
use crate::amount::spec_from_atto;
use crate::policy::ResourceControlPolicy;

verus! {

/// The number of bytes of an encoded policy: ten 16-byte amounts and two
/// 8-byte limits.
pub open spec fn spec_encoded_len() -> int {
    176
}

/// The byte encoding of a policy: each field in declaration order,
/// little-endian.
pub open spec fn spec_policy_bytes(p: ResourceControlPolicy) -> Seq<u8> {
    spec_u128_to_le_bytes(p.block@) + spec_u128_to_le_bytes(p.fuel_unit@) + spec_u128_to_le_bytes(
        p.read_operation@,
    ) + spec_u128_to_le_bytes(p.byte_read@) + spec_u128_to_le_bytes(p.byte_written@)
        + spec_u128_to_le_bytes(p.byte_stored@) + spec_u128_to_le_bytes(p.operation@)
        + spec_u128_to_le_bytes(p.operation_byte@) + spec_u128_to_le_bytes(p.message@)
        + spec_u128_to_le_bytes(p.message_byte@) + spec_u64_to_le_bytes(
        p.maximum_bytes_read_per_block,
    ) + spec_u64_to_le_bytes(p.maximum_bytes_written_per_block)
}

/// The policy a byte string decodes to: the twelve fields read back from
/// their fixed offsets, or nothing when the length is not exactly that of
/// an encoded policy.
pub open spec fn spec_policy_of_bytes(s: Seq<u8>) -> Option<ResourceControlPolicy> {
    if s.len() == spec_encoded_len() {
        Some(
            ResourceControlPolicy {
                block: spec_from_atto(spec_u128_from_le_bytes(s.subrange(0, 16))),
                fuel_unit: spec_from_atto(spec_u128_from_le_bytes(s.subrange(16, 32))),
                read_operation: spec_from_atto(spec_u128_from_le_bytes(s.subrange(32, 48))),
                byte_read: spec_from_atto(spec_u128_from_le_bytes(s.subrange(48, 64))),
                byte_written: spec_from_atto(spec_u128_from_le_bytes(s.subrange(64, 80))),
                byte_stored: spec_from_atto(spec_u128_from_le_bytes(s.subrange(80, 96))),
                operation: spec_from_atto(spec_u128_from_le_bytes(s.subrange(96, 112))),
                operation_byte: spec_from_atto(spec_u128_from_le_bytes(s.subrange(112, 128))),
                message: spec_from_atto(spec_u128_from_le_bytes(s.subrange(128, 144))),
                message_byte: spec_from_atto(spec_u128_from_le_bytes(s.subrange(144, 160))),
                maximum_bytes_read_per_block: spec_u64_from_le_bytes(s.subrange(160, 168)),
                maximum_bytes_written_per_block: spec_u64_from_le_bytes(s.subrange(168, 176)),
            },
        )
    } else {
        None
    }
}

/// Encodes a policy into its 176-byte form.
pub fn policy_to_bytes(p: &ResourceControlPolicy) -> (r: Vec<u8>)
    ensures
        r@ == spec_policy_bytes(*p),
{
    let mut out: Vec<u8> = Vec::new();
    let mut field = u128_to_le_bytes(p.block.as_atto());
    out.append(&mut field);
    let mut field = u128_to_le_bytes(p.fuel_unit.as_atto());
    out.append(&mut field);
    let mut field = u128_to_le_bytes(p.read_operation.as_atto());
    out.append(&mut field);
    let mut field = u128_to_le_bytes(p.byte_read.as_atto());
    out.append(&mut field);
    let mut field = u128_to_le_bytes(p.byte_written.as_atto());
    out.append(&mut field);
    let mut field = u128_to_le_bytes(p.byte_stored.as_atto());
    out.append(&mut field);
    let mut field = u128_to_le_bytes(p.operation.as_atto());
    out.append(&mut field);
    let mut field = u128_to_le_bytes(p.operation_byte.as_atto());
    out.append(&mut field);
    let mut field = u128_to_le_bytes(p.message.as_atto());
    out.append(&mut field);
    let mut field = u128_to_le_bytes(p.message_byte.as_atto());
    out.append(&mut field);
    let mut field = u64_to_le_bytes(p.maximum_bytes_read_per_block);
    out.append(&mut field);
    let mut field = u64_to_le_bytes(p.maximum_bytes_written_per_block);
    out.append(&mut field);
    out
}

/// Decodes a policy from its 176-byte form; any other length is rejected.
pub fn policy_from_bytes(bytes: &[u8]) -> (r: Option<ResourceControlPolicy>)
    ensures
        r == spec_policy_of_bytes(bytes@),
{
    if bytes.len() != 176 {
        return None;
    }
    let policy = ResourceControlPolicy {
        block: Amount::from_atto(u128_from_le_bytes(slice_subrange(bytes, 0, 16))),
        fuel_unit: Amount::from_atto(u128_from_le_bytes(slice_subrange(bytes, 16, 32))),
        read_operation: Amount::from_atto(u128_from_le_bytes(slice_subrange(bytes, 32, 48))),
        byte_read: Amount::from_atto(u128_from_le_bytes(slice_subrange(bytes, 48, 64))),
        byte_written: Amount::from_atto(u128_from_le_bytes(slice_subrange(bytes, 64, 80))),
        byte_stored: Amount::from_atto(u128_from_le_bytes(slice_subrange(bytes, 80, 96))),
        operation: Amount::from_atto(u128_from_le_bytes(slice_subrange(bytes, 96, 112))),
        operation_byte: Amount::from_atto(u128_from_le_bytes(slice_subrange(bytes, 112, 128))),
        message: Amount::from_atto(u128_from_le_bytes(slice_subrange(bytes, 128, 144))),
        message_byte: Amount::from_atto(u128_from_le_bytes(slice_subrange(bytes, 144, 160))),
        maximum_bytes_read_per_block: u64_from_le_bytes(slice_subrange(bytes, 160, 168)),
        maximum_bytes_written_per_block: u64_from_le_bytes(slice_subrange(bytes, 168, 176)),
    };
    Some(policy)
}

/// Round trip: decoding the encoding of any policy gives that policy back,
/// field for field.
pub proof fn lemma_policy_bytes_roundtrip(p: ResourceControlPolicy)
    ensures
        spec_policy_of_bytes(spec_policy_bytes(p)) == Some(p),
{
    lemma_auto_spec_u128_to_from_le_bytes();
    lemma_auto_spec_u64_to_from_le_bytes();
    let s = spec_policy_bytes(p);
    assert(s.len() == spec_encoded_len());
    assert(s.subrange(0, 16) =~= spec_u128_to_le_bytes(p.block@));
    assert(s.subrange(16, 32) =~= spec_u128_to_le_bytes(p.fuel_unit@));
    assert(s.subrange(32, 48) =~= spec_u128_to_le_bytes(p.read_operation@));
    assert(s.subrange(48, 64) =~= spec_u128_to_le_bytes(p.byte_read@));
    assert(s.subrange(64, 80) =~= spec_u128_to_le_bytes(p.byte_written@));
    assert(s.subrange(80, 96) =~= spec_u128_to_le_bytes(p.byte_stored@));
    assert(s.subrange(96, 112) =~= spec_u128_to_le_bytes(p.operation@));
    assert(s.subrange(112, 128) =~= spec_u128_to_le_bytes(p.operation_byte@));
    assert(s.subrange(128, 144) =~= spec_u128_to_le_bytes(p.message@));
    assert(s.subrange(144, 160) =~= spec_u128_to_le_bytes(p.message_byte@));
    assert(s.subrange(160, 168) =~= spec_u64_to_le_bytes(p.maximum_bytes_read_per_block));
    assert(s.subrange(168, 176) =~= spec_u64_to_le_bytes(p.maximum_bytes_written_per_block));
    lemma_from_atto_of_view(p.block);
    lemma_from_atto_of_view(p.fuel_unit);
    lemma_from_atto_of_view(p.read_operation);
    lemma_from_atto_of_view(p.byte_read);
    lemma_from_atto_of_view(p.byte_written);
    lemma_from_atto_of_view(p.byte_stored);
    lemma_from_atto_of_view(p.operation);
    lemma_from_atto_of_view(p.operation_byte);
    lemma_from_atto_of_view(p.message);
    lemma_from_atto_of_view(p.message_byte);
}

} // verus!
