//! Encoding of statements and signing them against a parent block.

use crate::primitives::{bytes_eq, AuthorityId, CandidateReceipt, H256, Statement};
use ed25519_dalek::Signer;
use vstd::prelude::*;

verus! {

/// Little-endian bytes of a `u32`.
pub open spec fn u32_le(x: u32) -> Seq<u8> {
    seq![x as u8, (x >> 8u32) as u8, (x >> 16u32) as u8, (x >> 24u32) as u8]
}

/// Little-endian bytes of a `u64`.
pub open spec fn u64_le(x: u64) -> Seq<u8> {
    seq![
        x as u8,
        (x >> 8u64) as u8,
        (x >> 16u64) as u8,
        (x >> 24u64) as u8,
        (x >> 32u64) as u8,
        (x >> 40u64) as u8,
        (x >> 48u64) as u8,
        (x >> 56u64) as u8,
    ]
}

/// Encoding of a candidate receipt: its fields in order, integers little-endian.
pub open spec fn encode_receipt(c: CandidateReceipt) -> Seq<u8> {
    u32_le(c.parachain_index) + c.collator@ + c.head_data@ + u64_le(c.fees) + c.digest@
}

/// Encoding of a statement: a tag byte, then the receipt or the digest.
pub open spec fn encode_statement(s: Statement) -> Seq<u8> {
    match s {
        Statement::Candidate(c) => seq![0u8] + encode_receipt(c),
        Statement::Valid(h) => seq![1u8] + h@,
        Statement::Invalid(h) => seq![2u8] + h@,
        Statement::Available(h) => seq![3u8] + h@,
    }
}

/// The message actually signed: the encoded statement followed by the parent hash.
pub open spec fn signing_payload(s: Statement, parent_hash: H256) -> Seq<u8> {
    encode_statement(s) + parent_hash@
}

/// The Ed25519 signature of `message` under the key with this secret.
pub uninterp spec fn ed25519_signature(secret: Seq<u8>, message: Seq<u8>) -> Seq<u8>;

/// The Ed25519 public key belonging to this secret.
pub uninterp spec fn ed25519_public_key(secret: Seq<u8>) -> Seq<u8>;

/// Whether `signature` is a valid Ed25519 signature of `message` under the public key.
pub uninterp spec fn ed25519_verifies(public: Seq<u8>, message: Seq<u8>, signature: Seq<u8>) -> bool;

/// Relies on `ed25519_dalek::VerifyingKey::verify_strict` (through
/// `VerifyingKey::from_bytes`, whose failure on a malformed key counts as an
/// invalid signature, and `Signature::from_bytes`): the verdict depends on the
/// key, the message and the signature alone.
#[verifier::external_body]
fn ed25519_verify(public: &[u8; 32], message: &Vec<u8>, signature: &[u8; 64]) -> (r: bool)
    ensures
        r == ed25519_verifies(public@, message@, signature@),
{
    match ed25519_dalek::VerifyingKey::from_bytes(public) {
        Ok(key) => key.verify_strict(
            message.as_slice(),
            &ed25519_dalek::Signature::from_bytes(signature),
        ).is_ok(),
        Err(_) => false,
    }
}

/// Relies on `ed25519_dalek::SigningKey::sign` (through `from_bytes` and
/// `Signature::to_bytes`): a deterministic signature of the message that depends
/// on the secret and the message alone.
#[verifier::external_body]
fn ed25519_sign(secret: &[u8; 32], message: &Vec<u8>) -> (r: [u8; 64])
    ensures
        r@ == ed25519_signature(secret@, message@),
{
    ed25519_dalek::SigningKey::from_bytes(secret).sign(message.as_slice()).to_bytes()
}

/// Relies on `ed25519_dalek::SigningKey::verifying_key` (through `from_bytes` and
/// `VerifyingKey::to_bytes`): the public key is a function of the secret alone.
#[verifier::external_body]
fn ed25519_public(secret: &[u8; 32]) -> (r: [u8; 32])
    ensures
        r@ == ed25519_public_key(secret@),
{
    ed25519_dalek::SigningKey::from_bytes(secret).verifying_key().to_bytes()
}

/// An Ed25519 key pair, held as its secret.
#[derive(Clone, Copy)]
pub struct Pair {
    pub secret: [u8; 32],
}

impl Pair {
    /// The key pair with this secret.
    pub fn from_seed(seed: [u8; 32]) -> (r: Pair)
        ensures
            r.secret == seed,
    {
        Pair { secret: seed }
    }

    /// The public key of this pair.
    pub fn public(&self) -> (r: AuthorityId)
        ensures
            r@ == ed25519_public_key(self.secret@),
    {
        ed25519_public(&self.secret)
    }
}

fn push_bytes32(out: &mut Vec<u8>, b: &[u8; 32])
    ensures
        final(out)@ == old(out)@ + b@,
{
    let mut i: usize = 0;
    while i < 32
        invariant
            0 <= i <= 32,
            out@ == old(out)@ + b@.subrange(0, i as int),
        decreases 32 - i,
    {
        out.push(b[i]);
        i = i + 1;
        assert(b@.subrange(0, i as int) == b@.subrange(0, i - 1) + seq![b@[i - 1]]);
    }
    assert(b@.subrange(0, 32) == b@);
}

fn push_u32(out: &mut Vec<u8>, x: u32)
    ensures
        final(out)@ == old(out)@ + u32_le(x),
{
    out.push(x as u8);
    out.push((x >> 8u32) as u8);
    out.push((x >> 16u32) as u8);
    out.push((x >> 24u32) as u8);
    assert(out@ =~= old(out)@ + u32_le(x));
}

fn push_u64(out: &mut Vec<u8>, x: u64)
    ensures
        final(out)@ == old(out)@ + u64_le(x),
{
    out.push(x as u8);
    out.push((x >> 8u64) as u8);
    out.push((x >> 16u64) as u8);
    out.push((x >> 24u64) as u8);
    out.push((x >> 32u64) as u8);
    out.push((x >> 40u64) as u8);
    out.push((x >> 48u64) as u8);
    out.push((x >> 56u64) as u8);
    assert(out@ =~= old(out)@ + u64_le(x));
}

/// Encodes a statement.
pub fn encode(statement: &Statement) -> (r: Vec<u8>)
    ensures
        r@ == encode_statement(*statement),
{
    let mut out: Vec<u8> = Vec::new();
    match statement {
        Statement::Candidate(c) => {
            out.push(0u8);
            push_u32(&mut out, c.parachain_index);
            push_bytes32(&mut out, &c.collator);
            push_bytes32(&mut out, &c.head_data);
            push_u64(&mut out, c.fees);
            push_bytes32(&mut out, &c.digest);
            assert(out@ =~= seq![0u8] + encode_receipt(*c));
        },
        Statement::Valid(h) => {
            out.push(1u8);
            push_bytes32(&mut out, h);
            assert(out@ =~= seq![1u8] + h@);
        },
        Statement::Invalid(h) => {
            out.push(2u8);
            push_bytes32(&mut out, h);
            assert(out@ =~= seq![2u8] + h@);
        },
        Statement::Available(h) => {
            out.push(3u8);
            push_bytes32(&mut out, h);
            assert(out@ =~= seq![3u8] + h@);
        },
    }
    out
}

/// Sign a table statement against a parent hash.
/// The message signed is the encoded statement followed by the parent hash.
pub fn sign_table_statement(statement: &Statement, key: &Pair, parent_hash: &H256) -> (r: [u8; 64])
    ensures
        r@ == ed25519_signature(key.secret@, signing_payload(*statement, *parent_hash)),
{
    let mut encoded = encode(statement);
    push_bytes32(&mut encoded, parent_hash);
    ed25519_sign(&key.secret, &encoded)
}

/// Whether `signature` is `sender`'s signature of the statement against the
/// parent hash.
pub fn verify_table_statement(
    statement: &Statement,
    sender: &AuthorityId,
    signature: &[u8; 64],
    parent_hash: &H256,
) -> (r: bool)
    ensures
        r == ed25519_verifies(sender@, signing_payload(*statement, *parent_hash), signature@),
{
    let mut encoded = encode(statement);
    push_bytes32(&mut encoded, parent_hash);
    ed25519_verify(sender, &encoded, signature)
}

/// A statement is never signed as the same message under two different parent
/// hashes, whatever its kind: a signature made for one fork of the chain cannot
/// be replayed on another.
pub proof fn lemma_fork_isolation(statement: Statement, fork1: H256, fork2: H256)
    requires
        fork1 != fork2,
    ensures
        signing_payload(statement, fork1) != signing_payload(statement, fork2),
{
    broadcast use vstd::array::group_array_axioms;
    let p1 = signing_payload(statement, fork1);
    let p2 = signing_payload(statement, fork2);
    let n = encode_statement(statement).len();
    assert(p1.subrange(n as int, p1.len() as int) =~= fork1@);
    assert(p2.subrange(n as int, p2.len() as int) =~= fork2@);
    if p1 == p2 {
        assert(fork1@ == fork2@);
        assert forall|i: int| 0 <= i < 32 implies fork1[i] == fork2[i] by {
            assert(fork1@[i] == fork2@[i]);
        }
        assert(fork1 =~= fork2);
    }
}

} // verus!
