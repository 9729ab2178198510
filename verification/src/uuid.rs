//! Derivation of member identifiers.
//!
//! A member's identifier is the Blake2b-256 digest of the registering
//! account's little-endian encoding followed by the registration time's
//! little-endian encoding, so the identifier is a function of who registered
//! and when.

use vstd::prelude::*;

use crate::types::{AccountId, MemberUuid};

verus! {

/// The Blake2b-256 digest of a byte string, as `sp_core` computes it.
pub uninterp spec fn blake2_256_of(data: Seq<u8>) -> Seq<u8>;

/// The little-endian encoding of a 64-bit integer.
pub open spec fn le_bytes_64(x: u64) -> Seq<u8> {
    seq![
        (x & 0xff) as u8,
        ((x >> 8) & 0xff) as u8,
        ((x >> 16) & 0xff) as u8,
        ((x >> 24) & 0xff) as u8,
        ((x >> 32) & 0xff) as u8,
        ((x >> 40) & 0xff) as u8,
        ((x >> 48) & 0xff) as u8,
        ((x >> 56) & 0xff) as u8,
    ]
}

/// The bytes hashed to derive a member identifier: the account's encoding
/// followed by the registration time's encoding.
pub open spec fn registration_preimage(account: AccountId, now: u64) -> Seq<u8> {
    le_bytes_64(account) + le_bytes_64(now)
}

/// The member identifier derived for `account` registering at time `now`.
pub open spec fn derived_member_id(account: AccountId, now: u64) -> Seq<u8> {
    blake2_256_of(registration_preimage(account, now))
}

/// Relies on `sp_core::Blake2Hasher::hash`: the 32-byte Blake2b-256 digest
/// of the input, a function of the input bytes alone.
#[verifier::external_body]
fn blake2_256(data: &Vec<u8>) -> (r: [u8; 32])
    ensures
        r@ == blake2_256_of(data@),
{
    let h = <sp_core::Blake2Hasher as sp_core::Hasher>::hash(data.as_slice());
    h.0
}

/// Appends the little-endian bytes of `x`.
fn push_le_bytes_64(out: &mut Vec<u8>, x: u64)
    ensures
        final(out)@ == old(out)@ + le_bytes_64(x),
{
    out.push((x & 0xff) as u8);
    out.push(((x >> 8) & 0xff) as u8);
    out.push(((x >> 16) & 0xff) as u8);
    out.push(((x >> 24) & 0xff) as u8);
    out.push(((x >> 32) & 0xff) as u8);
    out.push(((x >> 40) & 0xff) as u8);
    out.push(((x >> 48) & 0xff) as u8);
    out.push(((x >> 56) & 0xff) as u8);
    proof {
        assert(out@ =~= old(out)@ + le_bytes_64(x));
    }
}

/// Derives the identifier under which `account`, registering at time `now`,
/// is stored.
pub fn generate_member_uuid(account: AccountId, now: u64) -> (r: MemberUuid)
    ensures
        r@ == derived_member_id(account, now),
{
    let mut data: Vec<u8> = Vec::new();
    push_le_bytes_64(&mut data, account);
    push_le_bytes_64(&mut data, now);
    proof {
        assert(data@ =~= registration_preimage(account, now));
    }
    blake2_256(&data)
}

} // verus!
