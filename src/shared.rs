//! The shared table of a round: statement import with at-most-once local
//! checking of each candidate, local signing, and read accessors.

use crate::context::{GroupInfo, TableContext};
use crate::primitives::{bytes_eq, AuthorityId, CandidateReceipt, ParaId, SignedStatement, Statement, H256};
use crate::producer::StatementProducer;
use crate::signing::{ed25519_signature, signing_payload, Pair};
use crate::table::{find_candidate, Misbehavior, Table, TableModel};
use std::collections::HashMap;
use vstd::prelude::*;

verus! {

/// The mutable state of a round, as mathematical values.
pub struct InnerModel {
    pub table: TableModel,
    pub proposed_digest: Option<H256>,
    pub checked_validity: Seq<H256>,
    pub checked_availability: Seq<H256>,
}

impl InnerModel {
    /// Importing `statement`: the table imports it; if it was accepted, this
    /// authority checks the validity of the candidate when it guarantees
    /// validity for the candidate's group, did not propose the candidate, and
    /// has not checked it before; and checks availability when it guarantees
    /// availability and has not checked it before. Each check starts a fetch
    /// of the candidate's data.
    pub open spec fn import_spec(self, ctx: TableContext, statement: SignedStatement) -> (
        InnerModel,
        StatementProducer,
    ) {
        let (t, summary) = self.table.import_spec(ctx, statement);
        match summary {
            None => (InnerModel { table: t, ..self }, StatementProducer::fresh(None, None)),
            Some(s) => {
                let d = s.candidate;
                let checking_validity = ctx.member_spec(ctx.local, s.group_id)
                    && self.proposed_digest != Some(d) && !self.checked_validity.contains(d);
                let checking_availability = ctx.availability_spec(ctx.local, s.group_id)
                    && !self.checked_availability.contains(d);
                let candidate = find_candidate(t.candidates, d);
                let next = InnerModel {
                    table: t,
                    proposed_digest: self.proposed_digest,
                    checked_validity: if checking_validity {
                        self.checked_validity.push(d)
                    } else {
                        self.checked_validity
                    },
                    checked_availability: if checking_availability {
                        self.checked_availability.push(d)
                    } else {
                        self.checked_availability
                    },
                };
                let block_data = if checking_validity {
                    candidate
                } else {
                    None
                };
                let extrinsic = if checking_availability {
                    candidate
                } else {
                    None
                };
                (next, StatementProducer::fresh(block_data, extrinsic))
            },
        }
    }

    /// The state once the local authority states `statement`: a candidate
    /// becomes the local proposal.
    pub open spec fn note_local(self, statement: Statement) -> InnerModel {
        match statement {
            Statement::Candidate(c) => InnerModel { proposed_digest: Some(c.digest), ..self },
            _ => self,
        }
    }
}

/// Imports statements one after the other: the final state and the producer
/// of each import, in order.
pub open spec fn import_all(m: InnerModel, ctx: TableContext, statements: Seq<SignedStatement>) -> (
    InnerModel,
    Seq<StatementProducer>,
)
    decreases statements.len(),
{
    if statements.len() == 0 {
        (m, Seq::empty())
    } else {
        let (m1, ps) = import_all(m, ctx, statements.drop_last());
        let (m2, p) = m1.import_spec(ctx, statements.last());
        (m2, ps.push(p))
    }
}

/// Whether `d` is in `v`.
fn contains_hash(v: &Vec<H256>, d: &H256) -> (r: bool)
    ensures
        r == v@.contains(*d),
{
    let mut i: usize = 0;
    while i < v.len()
        invariant
            0 <= i <= v.len(),
            forall|j: int| 0 <= j < i ==> v@[j] != *d,
        decreases v.len() - i,
    {
        if bytes_eq(&v[i], d) {
            assert(v@[i as int] == *d);
            return true;
        }
        i = i + 1;
    }
    false
}

/// Mutable state of a round.
pub struct SharedTableInner {
    pub table: Table,
    pub proposed_digest: Option<H256>,
    pub checked_validity: Vec<H256>,
    pub checked_availability: Vec<H256>,
}

impl View for SharedTableInner {
    type V = InnerModel;

    open spec fn view(&self) -> InnerModel {
        InnerModel {
            table: self.table@,
            proposed_digest: self.proposed_digest,
            checked_validity: self.checked_validity@,
            checked_availability: self.checked_availability@,
        }
    }
}

impl SharedTableInner {
    /// Imports a single statement and decides what this authority fetches.
    pub fn import_statement(
        &mut self,
        context: &TableContext,
        statement: SignedStatement,
        received_from: Option<AuthorityId>,
    ) -> (r: StatementProducer)
        ensures
            (final(self)@, r) == old(self)@.import_spec(*context, statement),
    {
        let summary = match self.table.import_statement(context, statement, received_from) {
            Some(summary) => summary,
            None => return StatementProducer::empty(),
        };
        let local_id = context.local_id();
        let is_validity_member = context.is_member_of(&local_id, &summary.group_id);
        let is_availability_member = context.is_availability_guarantor_of(
            &local_id,
            &summary.group_id,
        );
        let digest = summary.candidate;

        // Never check the validity of the local proposal.
        let not_proposed = match self.proposed_digest {
            Some(p) => !bytes_eq(&p, &digest),
            None => true,
        };
        let checking_validity = is_validity_member && not_proposed && !contains_hash(
            &self.checked_validity,
            &digest,
        );
        if checking_validity {
            self.checked_validity.push(digest);
        }
        let checking_availability = is_availability_member && !contains_hash(
            &self.checked_availability,
            &digest,
        );
        if checking_availability {
            self.checked_availability.push(digest);
        }

        let mut block_data: Option<CandidateReceipt> = None;
        let mut extrinsic: Option<CandidateReceipt> = None;
        if checking_validity || checking_availability {
            match self.table.get_candidate(&digest) {
                None => {},
                Some(candidate) => {
                    if checking_validity {
                        block_data = Some(candidate);
                    }
                    if checking_availability {
                        extrinsic = Some(candidate);
                    }
                },
            }
        }
        StatementProducer::new(block_data, extrinsic)
    }
}

/// `p` fetches the block data of the candidate with digest `d`.
pub open spec fn fetches_block_data(p: StatementProducer, d: H256) -> bool {
    p.fetch_block_data is Some && p.fetch_block_data->0.digest == d
}

/// `p` fetches the extrinsic data of the candidate with digest `d`.
pub open spec fn fetches_extrinsic(p: StatementProducer, d: H256) -> bool {
    p.fetch_extrinsic is Some && p.fetch_extrinsic->0.digest == d
}

/// The receipt found for a digest has that digest.
pub proof fn lemma_find_candidate_digest(s: Seq<CandidateReceipt>, d: H256)
    ensures
        find_candidate(s, d) is Some ==> find_candidate(s, d)->0.digest == d,
    decreases s.len(),
{
    if s.len() > 0 && s.last().digest != d {
        lemma_find_candidate_digest(s.drop_last(), d);
    }
}

/// One import: the checked sets only grow, a fetch is started only for a
/// digest not checked before, which is then checked, the local proposal is
/// kept, and the local proposal's validity is never fetched.
proof fn lemma_import_step(m: InnerModel, ctx: TableContext, statement: SignedStatement, d: H256)
    ensures
        ({
            let (m2, p) = m.import_spec(ctx, statement);
            &&& m.checked_validity.contains(d) ==> m2.checked_validity.contains(d)
            &&& m.checked_availability.contains(d) ==> m2.checked_availability.contains(d)
            &&& fetches_block_data(p, d) ==> !m.checked_validity.contains(d)
                && m2.checked_validity.contains(d)
            &&& fetches_extrinsic(p, d) ==> !m.checked_availability.contains(d)
                && m2.checked_availability.contains(d)
            &&& m2.proposed_digest == m.proposed_digest
            &&& m.proposed_digest == Some(d) ==> !fetches_block_data(p, d)
        }),
{
    let (t, summary) = m.table.import_spec(ctx, statement);
    if let Some(s) = summary {
        lemma_find_candidate_digest(t.candidates, s.candidate);
        let (m2, p) = m.import_spec(ctx, statement);
        if m.checked_validity.contains(d) {
            let i = choose|i: int| 0 <= i < m.checked_validity.len() && m.checked_validity[i] == d;
            if m2.checked_validity != m.checked_validity {
                assert(m2.checked_validity[i] == d);
            }
        }
        if m.checked_availability.contains(d) {
            let i = choose|i: int|
                0 <= i < m.checked_availability.len() && m.checked_availability[i] == d;
            if m2.checked_availability != m.checked_availability {
                assert(m2.checked_availability[i] == d);
            }
        }
        if fetches_block_data(p, d) {
            assert(m2.checked_validity.last() == d);
        }
        if fetches_extrinsic(p, d) {
            assert(m2.checked_availability.last() == d);
        }
    }
}

/// What holds of every sequence of imports, for the digest `d`.
proof fn lemma_import_all(m: InnerModel, ctx: TableContext, statements: Seq<SignedStatement>, d: H256)
    ensures
        ({
            let (m2, ps) = import_all(m, ctx, statements);
            &&& ps.len() == statements.len()
            &&& m.checked_validity.contains(d) ==> m2.checked_validity.contains(d)
            &&& m.checked_availability.contains(d) ==> m2.checked_availability.contains(d)
            &&& m2.proposed_digest == m.proposed_digest
            &&& forall|i: int|
                0 <= i < ps.len() && #[trigger] fetches_block_data(ps[i], d)
                    ==> !m.checked_validity.contains(d) && m2.checked_validity.contains(d)
            &&& forall|i: int|
                0 <= i < ps.len() && #[trigger] fetches_extrinsic(ps[i], d)
                    ==> !m.checked_availability.contains(d) && m2.checked_availability.contains(d)
            &&& forall|i: int, j: int|
                0 <= i < ps.len() && 0 <= j < ps.len() && #[trigger] fetches_block_data(ps[i], d)
                    && #[trigger] fetches_block_data(ps[j], d) ==> i == j
            &&& forall|i: int, j: int|
                0 <= i < ps.len() && 0 <= j < ps.len() && #[trigger] fetches_extrinsic(ps[i], d)
                    && #[trigger] fetches_extrinsic(ps[j], d) ==> i == j
            &&& m.proposed_digest == Some(d) ==> forall|i: int|
                0 <= i < ps.len() ==> !#[trigger] fetches_block_data(ps[i], d)
        }),
    decreases statements.len(),
{
    if statements.len() > 0 {
        let (m1, ps1) = import_all(m, ctx, statements.drop_last());
        lemma_import_all(m, ctx, statements.drop_last(), d);
        lemma_import_step(m1, ctx, statements.last(), d);
        let (m2, p) = m1.import_spec(ctx, statements.last());
        let ps = ps1.push(p);
        assert(import_all(m, ctx, statements) == (m2, ps));
        assert forall|i: int|
            0 <= i < ps.len() && #[trigger] fetches_block_data(ps[i], d) implies !m.checked_validity.contains(d)
            && m2.checked_validity.contains(d) by {
            if i < ps1.len() {
                assert(ps[i] == ps1[i]);
            }
        }
        assert forall|i: int|
            0 <= i < ps.len() && #[trigger] fetches_extrinsic(ps[i], d) implies !m.checked_availability.contains(d)
            && m2.checked_availability.contains(d) by {
            if i < ps1.len() {
                assert(ps[i] == ps1[i]);
            }
        }
        assert forall|i: int, j: int|
            0 <= i < ps.len() && 0 <= j < ps.len() && #[trigger] fetches_block_data(ps[i], d)
                && #[trigger] fetches_block_data(ps[j], d) implies i == j by {
            if i < ps1.len() {
                assert(ps[i] == ps1[i]);
            }
            if j < ps1.len() {
                assert(ps[j] == ps1[j]);
            }
        }
        assert forall|i: int, j: int|
            0 <= i < ps.len() && 0 <= j < ps.len() && #[trigger] fetches_extrinsic(ps[i], d)
                && #[trigger] fetches_extrinsic(ps[j], d) implies i == j by {
            if i < ps1.len() {
                assert(ps[i] == ps1[i]);
            }
            if j < ps1.len() {
                assert(ps[j] == ps1[j]);
            }
        }
        if m.proposed_digest == Some(d) {
            assert forall|i: int| 0 <= i < ps.len() implies !#[trigger] fetches_block_data(ps[i], d) by {
                if i < ps1.len() {
                    assert(ps[i] == ps1[i]);
                }
            }
        }
    }
}

/// Across any sequence of imports into one round's state, whoever sent the
/// statements, at most one import starts a fetch of a candidate's block data
/// and at most one a fetch of its extrinsic data.
pub proof fn lemma_fetch_at_most_once(m: InnerModel, ctx: TableContext, statements: Seq<SignedStatement>, d: H256)
    ensures
        forall|i: int, j: int|
            0 <= i < statements.len() && 0 <= j < statements.len() && #[trigger] fetches_block_data(
                import_all(m, ctx, statements).1[i],
                d,
            ) && #[trigger] fetches_block_data(import_all(m, ctx, statements).1[j], d) ==> i == j,
        forall|i: int, j: int|
            0 <= i < statements.len() && 0 <= j < statements.len() && #[trigger] fetches_extrinsic(
                import_all(m, ctx, statements).1[i],
                d,
            ) && #[trigger] fetches_extrinsic(import_all(m, ctx, statements).1[j], d) ==> i == j,
{
    lemma_import_all(m, ctx, statements, d);
}

/// Once the local authority has proposed the candidate with digest `d`, no
/// later import, of whatever statement, starts a fetch of its block data.
pub proof fn lemma_self_trust(m: InnerModel, ctx: TableContext, statements: Seq<SignedStatement>, d: H256)
    requires
        m.proposed_digest == Some(d),
    ensures
        import_all(m, ctx, statements).0.proposed_digest == Some(d),
        forall|i: int|
            0 <= i < statements.len() ==> !#[trigger] fetches_block_data(
                import_all(m, ctx, statements).1[i],
                d,
            ),
{
    lemma_import_all(m, ctx, statements, d);
}

/// `signed` is `statement` signed by the local authority of `ctx`.
pub open spec fn signed_locally(ctx: TableContext, statement: Statement, signed: SignedStatement) -> bool {
    &&& signed.statement == statement
    &&& signed.sender == ctx.local
    &&& signed.signature@ == ed25519_signature(
        ctx.key.secret@,
        signing_payload(statement, ctx.parent_hash),
    )
}

/// A shared table: the environment of one round and its mutable state.
pub struct SharedTable {
    pub context: TableContext,
    pub inner: SharedTableInner,
}

impl SharedTable {
    pub open spec fn wf(&self) -> bool {
        self.context.wf()
    }

    /// Create a new shared table, given the groups of the round, the key to
    /// sign with and the parent hash of the relay chain block being built.
    pub fn new(groups: HashMap<ParaId, GroupInfo>, key: Pair, parent_hash: H256) -> (r: SharedTable)
        ensures
            r.wf(),
            r.context.groups@ == groups@,
            r.context.key == key,
            r.context.parent_hash == parent_hash,
            r.inner@.table.candidates.len() == 0,
            r.inner@.table.statements.len() == 0,
            r.inner@.table.misbehavior.len() == 0,
            r.inner@.proposed_digest is None,
            r.inner@.checked_validity.len() == 0,
            r.inner@.checked_availability.len() == 0,
    {
        SharedTable {
            context: TableContext::new(groups, key, parent_hash),
            inner: SharedTableInner {
                table: Table::new(),
                proposed_digest: None,
                checked_validity: Vec::new(),
                checked_availability: Vec::new(),
            },
        }
    }

    /// Import a single statement; the producer says what to fetch.
    pub fn import_statement(&mut self, statement: SignedStatement, received_from: Option<AuthorityId>) -> (r:
        StatementProducer)
        ensures
            final(self).context == old(self).context,
            (final(self).inner@, r) == old(self).inner@.import_spec(old(self).context, statement),
    {
        self.inner.import_statement(&self.context, statement, received_from)
    }

    /// Sign and import a local statement. A candidate becomes the local
    /// proposal before it is imported.
    pub fn sign_and_import(&mut self, statement: Statement) -> (r: StatementProducer)
        ensures
            final(self).context == old(self).context,
            final(self).inner@.proposed_digest == old(self).inner@.note_local(
                statement,
            ).proposed_digest,
            exists|signed: SignedStatement|
                #[trigger] signed_locally(old(self).context, statement, signed) && (
                final(self).inner@,
                r,
            ) == old(self).inner@.note_local(statement).import_spec(old(self).context, signed),
    {
        let proposed_digest = match statement {
            Statement::Candidate(c) => Some(c.digest),
            _ => None,
        };
        let signed_statement = self.context.sign_statement(statement);
        if proposed_digest.is_some() {
            self.inner.proposed_digest = proposed_digest;
        }
        proof {
            lemma_import_step(self.inner@, self.context, signed_statement, signed_statement.sender);
        }
        let r = self.inner.import_statement(&self.context, signed_statement, None);
        assert(signed_locally(old(self).context, statement, signed_statement));
        r
    }

    /// Import many statements at once, each with the peer that relayed it.
    pub fn import_statements(&mut self, statements: Vec<(SignedStatement, Option<AuthorityId>)>) -> (r: Vec<
        StatementProducer,
    >)
        ensures
            final(self).context == old(self).context,
            (final(self).inner@, r@) == import_all(
                old(self).inner@,
                old(self).context,
                statements@.map_values(|p: (SignedStatement, Option<AuthorityId>)| p.0),
            ),
    {
        let ghost firsts = statements@.map_values(|p: (SignedStatement, Option<AuthorityId>)| p.0);
        let mut out: Vec<StatementProducer> = Vec::new();
        let mut i: usize = 0;
        assert(firsts.subrange(0, 0) =~= Seq::<SignedStatement>::empty());
        while i < statements.len()
            invariant
                0 <= i <= statements.len(),
                firsts == statements@.map_values(|p: (SignedStatement, Option<AuthorityId>)| p.0),
                self.context == old(self).context,
                (self.inner@, out@) == import_all(
                    old(self).inner@,
                    self.context,
                    firsts.subrange(0, i as int),
                ),
            decreases statements.len() - i,
        {
            let (statement, received_from) = statements[i];
            assert(firsts.subrange(0, i + 1).drop_last() =~= firsts.subrange(0, i as int));
            assert(firsts.subrange(0, i + 1).last() == statement);
            let p = self.inner.import_statement(&self.context, statement, received_from);
            out.push(p);
            i = i + 1;
        }
        assert(firsts.subrange(0, i as int) =~= firsts);
        out
    }

    /// Check if a proposal is valid. Block validity is a policy of the chain
    /// that this table does not hold, so no proposal is accepted here.
    pub fn proposal_valid(&self, proposal: &Vec<u8>) -> (r: bool)
        ensures
            !r,
    {
        false
    }

    /// Execute a closure on the stored receipt with this digest.
    pub fn with_candidate<F, U>(&self, digest: &H256, f: F) -> (r: U) where
        F: FnOnce(Option<CandidateReceipt>) -> U,

        requires
            f.requires((find_candidate(self.inner@.table.candidates, *digest),)),
        ensures
            f.ensures((find_candidate(self.inner@.table.candidates, *digest),), r),
    {
        let candidate = self.inner.table.get_candidate(digest);
        f(candidate)
    }

    /// Get all witnessed misbehavior.
    pub fn get_misbehavior(&self) -> (r: Vec<(AuthorityId, Misbehavior)>)
        ensures
            r@ == self.inner@.table.misbehavior,
    {
        self.inner.table.get_misbehavior()
    }

    /// Fill a statement batch with every accepted statement.
    pub fn fill_batch(&self, batch: &mut Vec<SignedStatement>)
        ensures
            final(batch)@ == old(batch)@ + self.inner@.table.statements,
    {
        self.inner.table.fill_batch(batch)
    }

    /// Get the local proposed candidate's digest.
    pub fn proposed_hash(&self) -> (r: Option<H256>)
        ensures
            r == self.inner@.proposed_digest,
    {
        self.inner.proposed_digest
    }
}

} // verus!
