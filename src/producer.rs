//! The work an import hands back: fetches of candidate data, and the
//! statements derived once they complete.

use crate::primitives::{CandidateReceipt, Statement};
use vstd::prelude::*;

verus! {

/// Produced statements about a specific candidate. Both may be `None`.
#[derive(Clone, Copy, Debug, PartialEq, Eq)]
pub struct ProducedStatements {
    /// A statement about the validity of the candidate.
    pub validity: Option<Statement>,
    /// A statement about the availability of the candidate.
    pub availability: Option<Statement>,
}

impl ProducedStatements {
    pub open spec fn empty_spec() -> ProducedStatements {
        ProducedStatements { validity: None, availability: None }
    }
}

impl Default for ProducedStatements {
    fn default() -> (r: ProducedStatements)
        ensures
            r == ProducedStatements::empty_spec(),
    {
        ProducedStatements { validity: None, availability: None }
    }
}

/// What a fetch yielded when it was polled.
pub enum FetchOutcome<E> {
    /// The fetch has not completed yet.
    Pending,
    /// The data arrived; the flag says whether it passed the check against
    /// the candidate's commitments.
    Fetched(bool),
    /// The fetch failed.
    Failed(E),
}

/// Whether a poll found the work complete.
#[derive(Clone, Copy, Debug, PartialEq, Eq)]
pub enum Async<T> {
    Ready(T),
    NotReady,
}

/// Work that produces statements about a specific candidate: an optional fetch
/// of the candidate's block data, checked for validity, and an optional fetch
/// of its extrinsic data, checked for availability. A completed fetch is never
/// looked at again.
#[derive(Clone, Copy, Debug, PartialEq, Eq)]
pub struct StatementProducer {
    /// The candidate whose block data is fetched, if any.
    pub fetch_block_data: Option<CandidateReceipt>,
    /// The candidate whose extrinsic data is fetched, if any.
    pub fetch_extrinsic: Option<CandidateReceipt>,
    /// The block data fetch has completed.
    pub block_data_done: bool,
    /// The extrinsic data fetch has completed.
    pub extrinsic_done: bool,
    /// Statements derived so far.
    pub produced_statements: ProducedStatements,
}

impl StatementProducer {
    /// A producer that fetches the given data and has derived nothing yet.
    pub open spec fn fresh(
        block_data: Option<CandidateReceipt>,
        extrinsic: Option<CandidateReceipt>,
    ) -> StatementProducer {
        StatementProducer {
            fetch_block_data: block_data,
            fetch_extrinsic: extrinsic,
            block_data_done: false,
            extrinsic_done: false,
            produced_statements: ProducedStatements::empty_spec(),
        }
    }

    pub open spec fn block_data_pending(self) -> bool {
        self.fetch_block_data is Some && !self.block_data_done
    }

    pub open spec fn extrinsic_pending(self) -> bool {
        self.fetch_extrinsic is Some && !self.extrinsic_done
    }

    /// One poll of the producer, given what each fetch yielded. A failure of a
    /// pending fetch fails the whole producer, the block data first. Otherwise
    /// fetched block data yields `Valid` or `Invalid`, fetched extrinsic data
    /// that passed its check yields `Available`, and once every fetch present
    /// has completed the derived statements are handed out.
    pub open spec fn poll_spec<E>(self, block_data: FetchOutcome<E>, extrinsic: FetchOutcome<E>) -> (
        StatementProducer,
        Result<Async<ProducedStatements>, E>,
    ) {
        if self.block_data_pending() && block_data is Failed {
            (self, Err(block_data->Failed_0))
        } else if self.extrinsic_pending() && extrinsic is Failed {
            (self, Err(extrinsic->Failed_0))
        } else {
            let block_now = self.block_data_pending() && block_data is Fetched;
            let extrinsic_now = self.extrinsic_pending() && extrinsic is Fetched;
            let validity = if block_now {
                let d = self.fetch_block_data->0.digest;
                if block_data->Fetched_0 {
                    Some(Statement::Valid(d))
                } else {
                    Some(Statement::Invalid(d))
                }
            } else {
                self.produced_statements.validity
            };
            let availability = if extrinsic_now && extrinsic->Fetched_0 {
                Some(Statement::Available(self.fetch_extrinsic->0.digest))
            } else {
                self.produced_statements.availability
            };
            let produced = ProducedStatements { validity, availability };
            let block_done = self.block_data_done || block_now;
            let extrinsic_done = self.extrinsic_done || extrinsic_now;
            let complete = (self.fetch_block_data is None || block_done) && (
            self.fetch_extrinsic is None || extrinsic_done);
            let next = StatementProducer {
                block_data_done: block_done,
                extrinsic_done: extrinsic_done,
                produced_statements: if complete {
                    ProducedStatements::empty_spec()
                } else {
                    produced
                },
                ..self
            };
            (next, Ok(if complete {
                Async::Ready(produced)
            } else {
                Async::NotReady
            }))
        }
    }

    /// A producer with nothing to fetch.
    pub fn empty() -> (r: StatementProducer)
        ensures
            r == StatementProducer::fresh(None, None),
    {
        StatementProducer::new(None, None)
    }

    /// A producer that fetches the given data.
    pub fn new(block_data: Option<CandidateReceipt>, extrinsic: Option<CandidateReceipt>) -> (r:
        StatementProducer)
        ensures
            r == StatementProducer::fresh(block_data, extrinsic),
    {
        StatementProducer {
            fetch_block_data: block_data,
            fetch_extrinsic: extrinsic,
            block_data_done: false,
            extrinsic_done: false,
            produced_statements: ProducedStatements::default(),
        }
    }

    /// Polls the producer with what each fetch yielded since the last poll.
    /// What is given for a fetch that is absent or already complete is ignored.
    pub fn poll<E>(&mut self, block_data: FetchOutcome<E>, extrinsic: FetchOutcome<E>) -> (r: Result<
        Async<ProducedStatements>,
        E,
    >)
        ensures
            (*final(self), r) == old(self).poll_spec(block_data, extrinsic),
    {
        let block_pending = self.fetch_block_data.is_some() && !self.block_data_done;
        let extrinsic_pending = self.fetch_extrinsic.is_some() && !self.extrinsic_done;
        let block_verdict = match block_data {
            FetchOutcome::Failed(e) => {
                if block_pending {
                    return Err(e);
                }
                None
            },
            FetchOutcome::Fetched(ok) => Some(ok),
            FetchOutcome::Pending => None,
        };
        let extrinsic_verdict = match extrinsic {
            FetchOutcome::Failed(e) => {
                if extrinsic_pending {
                    return Err(e);
                }
                None
            },
            FetchOutcome::Fetched(ok) => Some(ok),
            FetchOutcome::Pending => None,
        };
        if block_pending {
            if let Some(ok) = block_verdict {
                let d = self.fetch_block_data.unwrap().digest;
                self.produced_statements.validity = Some(
                    if ok {
                        Statement::Valid(d)
                    } else {
                        Statement::Invalid(d)
                    },
                );
                self.block_data_done = true;
            }
        }
        if extrinsic_pending {
            if let Some(ok) = extrinsic_verdict {
                if ok {
                    let d = self.fetch_extrinsic.unwrap().digest;
                    self.produced_statements.availability = Some(Statement::Available(d));
                }
                self.extrinsic_done = true;
            }
        }
        let complete = (self.fetch_block_data.is_none() || self.block_data_done) && (
        self.fetch_extrinsic.is_none() || self.extrinsic_done);
        if complete {
            let produced = self.produced_statements;
            self.produced_statements = ProducedStatements::default();
            Ok(Async::Ready(produced))
        } else {
            Ok(Async::NotReady)
        }
    }
}

/// A producer with no fetch scheduled resolves at its first poll, to no
/// statements, whatever it is polled with.
pub proof fn lemma_empty_resolution<E>(block_data: FetchOutcome<E>, extrinsic: FetchOutcome<E>)
    ensures
        StatementProducer::fresh(None, None).poll_spec(block_data, extrinsic).1 == Ok::<
            Async<ProducedStatements>,
            E,
        >(Async::Ready(ProducedStatements::empty_spec())),
{
}

} // verus!
