//! Instruction discriminants: the first eight bytes of the SHA-256 digest of
//! `namespace:name`.

use vstd::prelude::*;
use vstd::string::StringSliceAdditionalSpecFns;

verus! {

/// The SHA-256 digest of a byte string, as `solana_sdk::hash::hash` computes
/// it. The wrapper's result type fixes its length at 32 bytes.
pub uninterp spec fn sha256_digest(data: Seq<u8>) -> Seq<u8>;

/// Calls `solana_sdk::hash::hash` and hands out the digest's 32 bytes, which
/// are the ones that [`sha256_digest`] names for the input.
#[verifier::external_body]
fn sha256(data: &Vec<u8>) -> (digest: [u8; 32])
    ensures
        digest@ == sha256_digest(data@),
{
    solana_sdk::hash::hash(data.as_slice()).to_bytes()
}

/// The bytes that are hashed for an instruction: the namespace, a colon, the
/// name, each in UTF-8.
pub open spec fn discriminant_preimage(namespace: Seq<char>, name: Seq<char>) -> Seq<u8> {
    vstd::utf8::encode_utf8(namespace) + seq![0x3au8] + vstd::utf8::encode_utf8(name)
}

/// The discriminant of the instruction `name` in `namespace`.
pub open spec fn discriminant_of(namespace: Seq<char>, name: Seq<char>) -> Seq<u8> {
    sha256_digest(discriminant_preimage(namespace, name)).subrange(0, 8)
}

/// Lays down the bytes that are hashed for an instruction.
pub fn preimage(namespace: &str, name: &str) -> (bytes: Vec<u8>)
    ensures
        bytes@ == discriminant_preimage(namespace@, name@),
{
    let mut bytes: Vec<u8> = Vec::new();
    let head = namespace.as_bytes();
    let tail = name.as_bytes();
    let mut i: usize = 0;
    while i < head.len()
        invariant
            i <= head.len(),
            head@ == namespace.spec_bytes(),
            bytes@ == head@.take(i as int),
        decreases head.len() - i,
    {
        bytes.push(head[i]);
        assert(head@.take(i as int + 1) =~= head@.take(i as int).push(head@[i as int]));
        i += 1;
    }
    assert(head@.take(head@.len() as int) =~= head@);
    bytes.push(0x3au8);
    let mut j: usize = 0;
    while j < tail.len()
        invariant
            j <= tail.len(),
            head@ == namespace.spec_bytes(),
            tail@ == name.spec_bytes(),
            bytes@ == head@ + seq![0x3au8] + tail@.take(j as int),
        decreases tail.len() - j,
    {
        bytes.push(tail[j]);
        assert(tail@.take(j as int + 1) =~= tail@.take(j as int).push(tail@[j as int]));
        assert(bytes@ =~= head@ + seq![0x3au8] + tail@.take(j as int + 1));
        j += 1;
    }
    assert(tail@.take(tail@.len() as int) =~= tail@);
    bytes
}

/// The first eight bytes of a digest.
pub fn leading_bytes(digest: &[u8; 32]) -> (sighash: [u8; 8])
    ensures
        sighash@ == digest@.subrange(0, 8),
{
    let sighash: [u8; 8] = [
        digest[0],
        digest[1],
        digest[2],
        digest[3],
        digest[4],
        digest[5],
        digest[6],
        digest[7],
    ];
    assert(sighash@ =~= digest@.subrange(0, 8));
    sighash
}

/// Computes the eight-byte discriminant of an instruction, for example of
/// `swap_v2` in the namespace `global`.
pub fn get_discriminant(namespace: &str, name: &str) -> (sighash: [u8; 8])
    ensures
        sighash@ == discriminant_of(namespace@, name@),
{
    let bytes = preimage(namespace, name);
    let digest = sha256(&bytes);
    leading_bytes(&digest)
}

} // verus!
