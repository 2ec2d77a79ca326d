//! Deterministic wallet addressing: a wallet's address is the SHA-256
//! digest of a domain-separated seed built from the foreign verification
//! key and a caller-chosen nonce. No lookup table is needed: creating and
//! locating a wallet both recompute the same address.

use vstd::prelude::*;

use crate::crypto::{sha256, sha256_of};

verus! {

/// The domain-separation tag that opens every derivation seed: the ASCII
/// bytes of "wallet".
pub open spec fn derivation_tag() -> Seq<u8> {
    seq![119u8, 97u8, 108u8, 108u8, 101u8, 116u8]
}

/// The eight bytes of `n`, least significant first.
pub open spec fn u64_le_bytes(n: u64) -> Seq<u8> {
    seq![
        (n & 0xff) as u8,
        ((n >> 8) & 0xff) as u8,
        ((n >> 16) & 0xff) as u8,
        ((n >> 24) & 0xff) as u8,
        ((n >> 32) & 0xff) as u8,
        ((n >> 40) & 0xff) as u8,
        ((n >> 48) & 0xff) as u8,
        ((n >> 56) & 0xff) as u8,
    ]
}

/// The byte string that is hashed to derive a wallet address: the tag, the
/// 32 key bytes, then the nonce in little-endian order.
pub open spec fn derivation_seed(foreign_public_key: Seq<u8>, nonce: u64) -> Seq<u8> {
    derivation_tag() + foreign_public_key + u64_le_bytes(nonce)
}

/// The address of the wallet controlled by `foreign_public_key` under
/// `nonce`.
pub open spec fn derived_address(foreign_public_key: Seq<u8>, nonce: u64) -> Seq<u8> {
    sha256_of(derivation_seed(foreign_public_key, nonce))
}

/// Append the little-endian bytes of `n` to `out`.
fn append_u64_le(out: &mut Vec<u8>, n: u64)
    ensures
        final(out)@ == old(out)@ + u64_le_bytes(n),
{
    proof {
        assert(n & 0xff < 256 && (n >> 8) & 0xff < 256 && (n >> 16) & 0xff < 256 && (n >> 24)
            & 0xff < 256 && (n >> 32) & 0xff < 256 && (n >> 40) & 0xff < 256 && (n >> 48) & 0xff
            < 256 && (n >> 56) & 0xff < 256) by (bit_vector);
    }
    out.push((n & 0xff) as u8);
    out.push(((n >> 8) & 0xff) as u8);
    out.push(((n >> 16) & 0xff) as u8);
    out.push(((n >> 24) & 0xff) as u8);
    out.push(((n >> 32) & 0xff) as u8);
    out.push(((n >> 40) & 0xff) as u8);
    out.push(((n >> 48) & 0xff) as u8);
    out.push(((n >> 56) & 0xff) as u8);
    proof {
        assert(out@ =~= old(out)@ + u64_le_bytes(n));
    }
}

/// Derive the address of the wallet that `foreign_public_key` controls
/// under `nonce`.
///
/// Deterministic: the address is a function of the key and nonce alone, and
/// distinct (key, nonce) pairs hash distinct seeds
/// (`lemma_derivation_seed_injective`).
pub fn derive_wallet_address(foreign_public_key: &[u8; 32], nonce: u64) -> (addr: [u8; 32])
    ensures
        addr@ == derived_address(foreign_public_key@, nonce),
{
    let mut seed: Vec<u8> = Vec::new();
    seed.push(119);
    seed.push(97);
    seed.push(108);
    seed.push(108);
    seed.push(101);
    seed.push(116);
    proof {
        assert(seed@ =~= derivation_tag());
    }
    let mut i: usize = 0;
    while i < 32
        invariant
            i <= 32,
            seed@ == derivation_tag() + foreign_public_key@.subrange(0, i as int),
        decreases 32 - i,
    {
        seed.push(foreign_public_key[i]);
        proof {
            assert(seed@ =~= derivation_tag() + foreign_public_key@.subrange(0, i + 1));
        }
        i = i + 1;
    }
    proof {
        assert(foreign_public_key@.subrange(0, 32) =~= foreign_public_key@);
    }
    append_u64_le(&mut seed, nonce);
    proof {
        assert(seed@ =~= derivation_seed(foreign_public_key@, nonce));
    }
    sha256(seed.as_slice())
}

/// Address derivation is deterministic: equal keys and nonces always give
/// equal addresses.
pub proof fn lemma_derive_deterministic(
    pk1: Seq<u8>,
    nonce1: u64,
    pk2: Seq<u8>,
    nonce2: u64,
)
    requires
        pk1 == pk2,
        nonce1 == nonce2,
    ensures
        derived_address(pk1, nonce1) == derived_address(pk2, nonce2),
{
}

/// The little-endian encoding loses nothing: equal byte strings come only
/// from equal numbers.
pub proof fn lemma_u64_le_bytes_injective(a: u64, b: u64)
    requires
        u64_le_bytes(a) == u64_le_bytes(b),
    ensures
        a == b,
{
    assert(u64_le_bytes(a)[0] == u64_le_bytes(b)[0]);
    assert(u64_le_bytes(a)[1] == u64_le_bytes(b)[1]);
    assert(u64_le_bytes(a)[2] == u64_le_bytes(b)[2]);
    assert(u64_le_bytes(a)[3] == u64_le_bytes(b)[3]);
    assert(u64_le_bytes(a)[4] == u64_le_bytes(b)[4]);
    assert(u64_le_bytes(a)[5] == u64_le_bytes(b)[5]);
    assert(u64_le_bytes(a)[6] == u64_le_bytes(b)[6]);
    assert(u64_le_bytes(a)[7] == u64_le_bytes(b)[7]);
    assert((a & 0xff) as u8 == (b & 0xff) as u8 && ((a >> 8) & 0xff) as u8 == ((b >> 8)
        & 0xff) as u8 && ((a >> 16) & 0xff) as u8 == ((b >> 16) & 0xff) as u8 && ((a >> 24)
        & 0xff) as u8 == ((b >> 24) & 0xff) as u8 && ((a >> 32) & 0xff) as u8 == ((b >> 32)
        & 0xff) as u8 && ((a >> 40) & 0xff) as u8 == ((b >> 40) & 0xff) as u8 && ((a >> 48)
        & 0xff) as u8 == ((b >> 48) & 0xff) as u8 && ((a >> 56) & 0xff) as u8 == ((b >> 56)
        & 0xff) as u8 ==> a == b) by (bit_vector);
}

/// Distinct (key, nonce) pairs build distinct derivation seeds, so two
/// derived addresses can only coincide where the digest itself collides.
pub proof fn lemma_derivation_seed_injective(
    pk1: Seq<u8>,
    nonce1: u64,
    pk2: Seq<u8>,
    nonce2: u64,
)
    requires
        pk1.len() == 32,
        pk2.len() == 32,
        derivation_seed(pk1, nonce1) == derivation_seed(pk2, nonce2),
    ensures
        pk1 == pk2,
        nonce1 == nonce2,
{
    let s1 = derivation_seed(pk1, nonce1);
    let s2 = derivation_seed(pk2, nonce2);
    assert forall|i: int| 0 <= i < 32 implies pk1[i] == pk2[i] by {
        assert(s1[6 + i] == pk1[i]);
        assert(s2[6 + i] == pk2[i]);
    }
    assert(pk1 =~= pk2);
    assert forall|i: int| 0 <= i < 8 implies u64_le_bytes(nonce1)[i] == u64_le_bytes(nonce2)[i] by {
        assert(s1[38 + i] == u64_le_bytes(nonce1)[i]);
        assert(s2[38 + i] == u64_le_bytes(nonce2)[i]);
    }
    assert(u64_le_bytes(nonce1) =~= u64_le_bytes(nonce2));
    lemma_u64_le_bytes_injective(nonce1, nonce2);
}

} // verus!
