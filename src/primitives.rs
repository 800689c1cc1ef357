//! Plain data shared by every part of the library.

use vstd::prelude::*;

verus! {

/// A 256-bit hash.
pub type H256 = [u8; 32];

/// An authority's public key.
pub type AuthorityId = [u8; 32];

/// Identifier of a parachain.
pub type ParaId = u32;

/// A commitment to a candidate block of one parachain.
#[derive(Clone, Copy, Debug, PartialEq, Eq)]
pub struct CandidateReceipt {
    /// The parachain the candidate belongs to.
    pub parachain_index: ParaId,
    /// The collator that produced the candidate.
    pub collator: AuthorityId,
    /// Commitment to the candidate's head data.
    pub head_data: H256,
    /// Fees paid by the candidate.
    pub fees: u64,
    /// Content digest identifying the candidate.
    pub digest: H256,
}

/// A statement an authority makes about a candidate.
#[derive(Clone, Copy, Debug, PartialEq, Eq)]
pub enum Statement {
    /// Proposal of a new candidate.
    Candidate(CandidateReceipt),
    /// The candidate with this digest is valid.
    Valid(H256),
    /// The candidate with this digest is invalid.
    Invalid(H256),
    /// The data of the candidate with this digest is available.
    Available(H256),
}

/// A statement together with its signature and signer.
#[derive(Clone, Copy, Debug, PartialEq, Eq)]
pub struct SignedStatement {
    pub statement: Statement,
    pub signature: [u8; 64],
    pub sender: AuthorityId,
}

/// Compares two 32-byte values.
pub fn bytes_eq(a: &[u8; 32], b: &[u8; 32]) -> (r: bool)
    ensures
        r == (*a == *b),
{
    broadcast use vstd::array::group_array_axioms;
    let mut i: usize = 0;
    while i < 32
        invariant
            0 <= i <= 32,
            forall|j: int| 0 <= j < i ==> a[j] == b[j],
        decreases 32 - i,
    {
        if a[i] != b[i] {
            assert(!(*a =~= *b));
            return false;
        }
        i = i + 1;
    }
    assert(*a =~= *b);
    true
}

/// Compares two candidate receipts field by field.
pub fn receipt_eq(a: &CandidateReceipt, b: &CandidateReceipt) -> (r: bool)
    ensures
        r == (*a == *b),
{
    a.parachain_index == b.parachain_index && a.fees == b.fees && bytes_eq(&a.collator, &b.collator)
        && bytes_eq(&a.head_data, &b.head_data) && bytes_eq(&a.digest, &b.digest)
}

/// Compares two statements.
pub fn statement_eq(a: &Statement, b: &Statement) -> (r: bool)
    ensures
        r == (*a == *b),
{
    match (a, b) {
        (Statement::Candidate(x), Statement::Candidate(y)) => receipt_eq(x, y),
        (Statement::Valid(x), Statement::Valid(y)) => bytes_eq(x, y),
        (Statement::Invalid(x), Statement::Invalid(y)) => bytes_eq(x, y),
        (Statement::Available(x), Statement::Available(y)) => bytes_eq(x, y),
        _ => false,
    }
}

/// The digest of the candidate a statement speaks of.
pub open spec fn statement_digest(s: Statement) -> H256 {
    match s {
        Statement::Candidate(c) => c.digest,
        Statement::Valid(h) => h,
        Statement::Invalid(h) => h,
        Statement::Available(h) => h,
    }
}

} // verus!
