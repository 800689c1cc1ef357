//! The per-round environment: group configuration, local key and parent hash.

use crate::primitives::{bytes_eq, AuthorityId, ParaId, SignedStatement, Statement, H256};
use crate::signing::{ed25519_public_key, ed25519_signature, sign_table_statement, signing_payload, Pair};
use std::collections::HashMap;
use vstd::prelude::*;

verus! {

broadcast use vstd::std_specs::hash::group_hash_axioms;

/// Information about a specific group.
#[derive(Debug, Clone)]
pub struct GroupInfo {
    /// Authorities meant to check validity of candidates.
    pub validity_guarantors: Vec<AuthorityId>,
    /// Authorities meant to check availability of candidate data.
    pub availability_guarantors: Vec<AuthorityId>,
    /// Number of votes needed for validity.
    pub needed_validity: usize,
    /// Number of votes needed for availability.
    pub needed_availability: usize,
}

/// Whether `a` is among `v`.
pub fn contains_authority(v: &Vec<AuthorityId>, a: &AuthorityId) -> (r: bool)
    ensures
        r == v@.contains(*a),
{
    let mut i: usize = 0;
    while i < v.len()
        invariant
            0 <= i <= v.len(),
            forall|j: int| 0 <= j < i ==> v@[j] != *a,
        decreases v.len() - i,
    {
        if bytes_eq(&v[i], a) {
            assert(v@[i as int] == *a);
            return true;
        }
        i = i + 1;
    }
    false
}

/// The environment of one round. Immutable once built.
pub struct TableContext {
    /// Hash of the parent block the round builds on.
    pub parent_hash: H256,
    /// The local signing key.
    pub key: Pair,
    /// The public key of `key`.
    pub local: AuthorityId,
    /// Group configuration of each parachain.
    pub groups: HashMap<ParaId, GroupInfo>,
}

impl TableContext {
    /// The local public key is the one of the signing key.
    pub open spec fn wf(&self) -> bool {
        self.local@ == ed25519_public_key(self.key.secret@)
    }

    /// `authority` guarantees validity for `group`.
    pub open spec fn member_spec(&self, authority: AuthorityId, group: ParaId) -> bool {
        self.groups@.contains_key(group) && self.groups@[group].validity_guarantors@.contains(
            authority,
        )
    }

    /// `authority` guarantees availability for `group`.
    pub open spec fn availability_spec(&self, authority: AuthorityId, group: ParaId) -> bool {
        self.groups@.contains_key(group) && self.groups@[group].availability_guarantors@.contains(
            authority,
        )
    }

    /// Votes needed for validity and for availability in `group`.
    pub open spec fn requisite_spec(&self, group: ParaId) -> (usize, usize) {
        if self.groups@.contains_key(group) {
            (self.groups@[group].needed_validity, self.groups@[group].needed_availability)
        } else {
            (usize::MAX, usize::MAX)
        }
    }

    /// Builds the context of a round.
    pub fn new(groups: HashMap<ParaId, GroupInfo>, key: Pair, parent_hash: H256) -> (r: TableContext)
        ensures
            r.wf(),
            r.groups@ == groups@,
            r.key == key,
            r.parent_hash == parent_hash,
    {
        let local = key.public();
        TableContext { parent_hash, key, local, groups }
    }

    /// Whether `authority` guarantees validity for `group`; false for an unknown group.
    pub fn is_member_of(&self, authority: &AuthorityId, group: &ParaId) -> (r: bool)
        ensures
            r == self.member_spec(*authority, *group),
    {
        match self.groups.get(group) {
            Some(g) => contains_authority(&g.validity_guarantors, authority),
            None => false,
        }
    }

    /// Whether `authority` guarantees availability for `group`; false for an unknown group.
    pub fn is_availability_guarantor_of(&self, authority: &AuthorityId, group: &ParaId) -> (r: bool)
        ensures
            r == self.availability_spec(*authority, *group),
    {
        match self.groups.get(group) {
            Some(g) => contains_authority(&g.availability_guarantors, authority),
            None => false,
        }
    }

    /// Votes needed for validity and for availability; the largest counts for
    /// an unknown group, so that no quorum is ever reached there.
    pub fn requisite_votes(&self, group: &ParaId) -> (r: (usize, usize))
        ensures
            r == self.requisite_spec(*group),
    {
        match self.groups.get(group) {
            Some(g) => (g.needed_validity, g.needed_availability),
            None => (usize::MAX, usize::MAX),
        }
    }

    /// The local authority's public key.
    pub fn local_id(&self) -> (r: AuthorityId)
        ensures
            r == self.local,
    {
        self.local
    }

    /// Signs a statement with the local key against the parent hash.
    pub fn sign_statement(&self, statement: Statement) -> (r: SignedStatement)
        ensures
            r.statement == statement,
            r.sender == self.local,
            r.signature@ == ed25519_signature(
                self.key.secret@,
                signing_payload(statement, self.parent_hash),
            ),
    {
        let signature = sign_table_statement(&statement, &self.key, &self.parent_hash);
        let local_id = self.local_id();
        SignedStatement { statement, signature, sender: local_id }
    }
}

/// An unconfigured group never reaches a quorum and has no members.
pub proof fn lemma_unknown_group_fail_safe(ctx: &TableContext, group: ParaId, authority: AuthorityId)
    requires
        !ctx.groups@.contains_key(group),
    ensures
        ctx.requisite_spec(group) == (usize::MAX, usize::MAX),
        !ctx.member_spec(authority, group),
        !ctx.availability_spec(authority, group),
{
}

} // verus!
