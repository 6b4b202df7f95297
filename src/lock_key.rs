//! Derivation of the advisory lock key from a service namespace.
//!
//! The key is the 64-bit FNV-1a hash of the namespace's UTF-8 bytes,
//! reinterpreted as a signed integer. FNV-1a is fixed by its definition, so
//! the key is the same in every process, build and machine.
use vstd::prelude::*;
use vstd::string::StringSliceAdditionalSpecFns;

verus! {

/// FNV-1a 64-bit offset basis.
pub const FNV_OFFSET: u64 = 0xcbf2_9ce4_8422_2325;

/// FNV-1a 64-bit prime.
pub const FNV_PRIME: u64 = 0x0000_0100_0000_01b3;

/// One FNV-1a round: xor in the byte, then multiply modulo 2^64.
pub open spec fn fnv_round(h: u64, b: u8) -> u64 {
    (((h ^ (b as u64)) as nat * FNV_PRIME as nat) % 0x1_0000_0000_0000_0000nat) as u64
}

/// FNV-1a over a byte sequence.
pub open spec fn fnv1a(bytes: Seq<u8>) -> u64
    decreases bytes.len(),
{
    if bytes.len() == 0 {
        FNV_OFFSET
    } else {
        fnv_round(fnv1a(bytes.drop_last()), bytes.last())
    }
}

/// The lock key of a namespace, given by its characters.
pub open spec fn lock_key_of(namespace: Seq<char>) -> i64 {
    fnv1a(vstd::utf8::encode_utf8(namespace)) as i64
}

/// Derives the advisory lock key of `app_name`.
pub fn generate_lock_key(app_name: &str) -> (key: i64)
    ensures
        key == lock_key_of(app_name@),
{
    let bytes = app_name.as_bytes();
    let mut h: u64 = FNV_OFFSET;
    let mut i: usize = 0;
    while i < bytes.len()
        invariant
            bytes@ == app_name.spec_bytes(),
            i <= bytes@.len(),
            h == fnv1a(bytes@.subrange(0, i as int)),
        decreases bytes@.len() - i,
    {
        let b = bytes[i];
        proof {
            let pre = bytes@.subrange(0, i as int);
            let next = bytes@.subrange(0, i + 1);
            assert(next.drop_last() =~= pre);
            assert(next.last() == b);
        }
        h = (h ^ (b as u64)).wrapping_mul(FNV_PRIME);
        i = i + 1;
    }
    proof {
        assert(bytes@.subrange(0, bytes@.len() as int) =~= bytes@);
    }
    h as i64
}

/// The key is a function of the namespace: two derivations from namespaces
/// with the same characters give the same key.
pub proof fn lemma_lock_key_deterministic(a: Seq<char>, b: Seq<char>)
    requires
        a == b,
    ensures
        lock_key_of(a) == lock_key_of(b),
{
}

} // verus!
