//! The statement table: stores candidate receipts and the statements seen
//! about them, and reports which candidate each accepted statement concerns.

use crate::context::TableContext;
use crate::primitives::{bytes_eq, statement_eq, AuthorityId, CandidateReceipt, ParaId, SignedStatement, Statement, H256};
use crate::signing::{ed25519_verifies, signing_payload, verify_table_statement};
use vstd::prelude::*;

verus! {

/// Conflicting statements by one authority.
#[derive(Clone, Copy, Debug, PartialEq, Eq)]
pub enum Misbehavior {
    /// Stated both validity and invalidity of the candidate with this digest.
    ValidityDoubleVote(H256),
}

/// The candidate an accepted statement concerns, and its group.
#[derive(Clone, Copy, Debug, PartialEq, Eq)]
pub struct Summary {
    pub candidate: H256,
    pub group_id: ParaId,
}

/// What a table holds, as mathematical sequences.
pub struct TableModel {
    pub candidates: Seq<CandidateReceipt>,
    pub statements: Seq<SignedStatement>,
    pub misbehavior: Seq<(AuthorityId, Misbehavior)>,
}

/// The receipt with digest `d`, searched from the most recent.
pub open spec fn find_candidate(s: Seq<CandidateReceipt>, d: H256) -> Option<CandidateReceipt>
    decreases s.len(),
{
    if s.len() == 0 {
        None
    } else if s.last().digest == d {
        Some(s.last())
    } else {
        find_candidate(s.drop_last(), d)
    }
}

/// `sender` has already made statement `st`.
pub open spec fn has_statement(s: Seq<SignedStatement>, sender: AuthorityId, st: Statement) -> bool {
    exists|i: int| 0 <= i < s.len() && s[i].sender == sender && s[i].statement == st
}

/// The validity vote opposite to `st`, if `st` is a validity vote.
pub open spec fn opposite_vote(st: Statement) -> Option<Statement> {
    match st {
        Statement::Valid(d) => Some(Statement::Invalid(d)),
        Statement::Invalid(d) => Some(Statement::Valid(d)),
        _ => None,
    }
}

impl TableModel {
    /// The table after `signed` is recorded.
    pub open spec fn record(self, signed: SignedStatement) -> TableModel {
        TableModel { statements: self.statements.push(signed), ..self }
    }

    /// Result of importing `signed`: the new table, and the summary when the
    /// statement was accepted as new.
    ///
    /// A statement whose signature does not verify under its sender's key,
    /// against the round's parent hash, is ignored. A candidate is accepted from a validity guarantor of its parachain; a
    /// validity vote from a validity guarantor, and an availability statement
    /// from an availability guarantor, of the group of a known candidate. A
    /// statement already made by the same sender is ignored. A validity vote
    /// opposite to one the sender already made is recorded as misbehavior.
    pub open spec fn import_spec(self, ctx: TableContext, signed: SignedStatement) -> (
        TableModel,
        Option<Summary>,
    ) {
        let sender = signed.sender;
        let st = signed.statement;
        if !ed25519_verifies(sender@, signing_payload(st, ctx.parent_hash), signed.signature@) {
            (self, None)
        } else {
            match st {
                Statement::Candidate(c) => {
                    if !ctx.member_spec(sender, c.parachain_index) || has_statement(
                        self.statements,
                        sender,
                        st,
                    ) {
                        (self, None)
                    } else {
                        let t = self.record(signed);
                        let t = if find_candidate(self.candidates, c.digest) is None {
                            TableModel { candidates: t.candidates.push(c), ..t }
                        } else {
                            t
                        };
                        (t, Some(Summary { candidate: c.digest, group_id: c.parachain_index }))
                    }
                },
                _ => {
                    let d = crate::primitives::statement_digest(st);
                    match find_candidate(self.candidates, d) {
                        None => (self, None),
                        Some(c) => {
                            let group = c.parachain_index;
                            let allowed = if st is Available {
                                ctx.availability_spec(sender, group)
                            } else {
                                ctx.member_spec(sender, group)
                            };
                            if !allowed || has_statement(self.statements, sender, st) {
                                (self, None)
                            } else if opposite_vote(st) is Some && has_statement(
                                self.statements,
                                sender,
                                opposite_vote(st)->0,
                            ) {
                                (
                                    TableModel {
                                        misbehavior: self.misbehavior.push(
                                            (sender, Misbehavior::ValidityDoubleVote(d)),
                                        ),
                                        ..self
                                    },
                                    None,
                                )
                            } else {
                                (self.record(signed), Some(Summary { candidate: d, group_id: group }))
                            }
                        },
                    }
                },
            }
        }
    }
}

/// Statements and candidates of one round.
pub struct Table {
    pub candidates: Vec<CandidateReceipt>,
    pub statements: Vec<SignedStatement>,
    pub misbehavior: Vec<(AuthorityId, Misbehavior)>,
}

impl View for Table {
    type V = TableModel;

    open spec fn view(&self) -> TableModel {
        TableModel {
            candidates: self.candidates@,
            statements: self.statements@,
            misbehavior: self.misbehavior@,
        }
    }
}

impl Table {
    /// An empty table.
    pub fn new() -> (r: Table)
        ensures
            r@.candidates.len() == 0,
            r@.statements.len() == 0,
            r@.misbehavior.len() == 0,
    {
        Table { candidates: Vec::new(), statements: Vec::new(), misbehavior: Vec::new() }
    }

    /// The stored receipt with this digest.
    pub fn get_candidate(&self, digest: &H256) -> (r: Option<CandidateReceipt>)
        ensures
            r == find_candidate(self@.candidates, *digest),
    {
        let mut i: usize = self.candidates.len();
        assert(self@.candidates.subrange(0, i as int) =~= self@.candidates);
        while i > 0
            invariant
                0 <= i <= self.candidates.len(),
                find_candidate(self@.candidates, *digest) == find_candidate(
                    self@.candidates.subrange(0, i as int),
                    *digest,
                ),
            decreases i,
        {
            let ghost sub = self@.candidates.subrange(0, i as int);
            assert(sub.drop_last() =~= self@.candidates.subrange(0, i - 1));
            if bytes_eq(&self.candidates[i - 1].digest, digest) {
                return Some(self.candidates[i - 1]);
            }
            i = i - 1;
        }
        None
    }

    fn has_statement(&self, sender: &AuthorityId, st: &Statement) -> (r: bool)
        ensures
            r == has_statement(self@.statements, *sender, *st),
    {
        let mut i: usize = 0;
        while i < self.statements.len()
            invariant
                0 <= i <= self.statements.len(),
                forall|j: int|
                    0 <= j < i ==> !(self@.statements[j].sender == *sender
                        && self@.statements[j].statement == *st),
            decreases self.statements.len() - i,
        {
            if bytes_eq(&self.statements[i].sender, sender) && statement_eq(
                &self.statements[i].statement,
                st,
            ) {
                return true;
            }
            i = i + 1;
        }
        false
    }

    /// Imports a signed statement; `received_from` is the peer that relayed it.
    pub fn import_statement(
        &mut self,
        ctx: &TableContext,
        statement: SignedStatement,
        received_from: Option<AuthorityId>,
    ) -> (r: Option<Summary>)
        ensures
            (final(self)@, r) == old(self)@.import_spec(*ctx, statement),
    {
        let sender = statement.sender;
        let st = statement.statement;
        if !verify_table_statement(&st, &sender, &statement.signature, &ctx.parent_hash) {
            return None;
        }
        match st {
            Statement::Candidate(c) => {
                if !ctx.is_member_of(&sender, &c.parachain_index) || self.has_statement(
                    &sender,
                    &st,
                ) {
                    return None;
                }
                let known = self.get_candidate(&c.digest);
                self.statements.push(statement);
                if known.is_none() {
                    self.candidates.push(c);
                }
                Some(Summary { candidate: c.digest, group_id: c.parachain_index })
            },
            Statement::Valid(d) | Statement::Invalid(d) | Statement::Available(d) => {
                let c = match self.get_candidate(&d) {
                    None => {
                        return None;
                    },
                    Some(c) => c,
                };
                let group = c.parachain_index;
                let allowed = match st {
                    Statement::Available(_) => ctx.is_availability_guarantor_of(&sender, &group),
                    _ => ctx.is_member_of(&sender, &group),
                };
                if !allowed || self.has_statement(&sender, &st) {
                    return None;
                }
                let conflict = match st {
                    Statement::Valid(_) => self.has_statement(&sender, &Statement::Invalid(d)),
                    Statement::Invalid(_) => self.has_statement(&sender, &Statement::Valid(d)),
                    _ => false,
                };
                if conflict {
                    self.misbehavior.push((sender, Misbehavior::ValidityDoubleVote(d)));
                    return None;
                }
                self.statements.push(statement);
                Some(Summary { candidate: d, group_id: group })
            },
        }
    }

    /// All misbehavior seen so far.
    pub fn get_misbehavior(&self) -> (r: Vec<(AuthorityId, Misbehavior)>)
        ensures
            r@ == self@.misbehavior,
    {
        let mut out: Vec<(AuthorityId, Misbehavior)> = Vec::new();
        let mut i: usize = 0;
        while i < self.misbehavior.len()
            invariant
                0 <= i <= self.misbehavior.len(),
                out@ == self@.misbehavior.subrange(0, i as int),
            decreases self.misbehavior.len() - i,
        {
            out.push(self.misbehavior[i]);
            i = i + 1;
            assert(out@ =~= self@.misbehavior.subrange(0, i as int));
        }
        assert(self@.misbehavior.subrange(0, i as int) =~= self@.misbehavior);
        out
    }

    /// Appends every accepted statement to `batch`, in the order accepted.
    pub fn fill_batch(&self, batch: &mut Vec<SignedStatement>)
        ensures
            final(batch)@ == old(batch)@ + self@.statements,
    {
        let mut i: usize = 0;
        while i < self.statements.len()
            invariant
                0 <= i <= self.statements.len(),
                batch@ == old(batch)@ + self@.statements.subrange(0, i as int),
            decreases self.statements.len() - i,
        {
            batch.push(self.statements[i]);
            i = i + 1;
            assert(batch@ =~= old(batch)@ + self@.statements.subrange(0, i as int));
        }
        assert(self@.statements.subrange(0, i as int) =~= self@.statements);
    }
}

} // verus!
