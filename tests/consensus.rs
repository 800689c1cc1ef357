use std::collections::HashMap;

use ed25519_dalek::{Signature, Verifier, VerifyingKey};
use polkadot_consensus::context::{GroupInfo, TableContext};
use polkadot_consensus::primitives::{AuthorityId, CandidateReceipt, SignedStatement, Statement, H256};
use polkadot_consensus::producer::{Async, FetchOutcome, ProducedStatements, StatementProducer};
use polkadot_consensus::roster::{make_group_info, Chain, DutyRoster, ErrorKind};
use polkadot_consensus::shared::SharedTable;
use polkadot_consensus::signing::{encode, sign_table_statement, verify_table_statement, Pair};
use polkadot_consensus::table::Misbehavior;

const PARA: u32 = 5;

fn pair(n: u8) -> Pair {
    Pair::from_seed([n; 32])
}

fn receipt(para: u32, digest: u8) -> CandidateReceipt {
    CandidateReceipt {
        parachain_index: para,
        collator: [9; 32],
        head_data: [digest.wrapping_add(1); 32],
        fees: 1_000,
        digest: [digest; 32],
    }
}

fn signed(statement: Statement, key: &Pair, parent: &H256) -> SignedStatement {
    SignedStatement {
        statement,
        signature: sign_table_statement(&statement, key, parent),
        sender: key.public(),
    }
}

fn groups(validity: Vec<AuthorityId>, availability: Vec<AuthorityId>) -> HashMap<u32, GroupInfo> {
    let mut g = HashMap::new();
    g.insert(
        PARA,
        GroupInfo {
            needed_validity: 2,
            needed_availability: 1,
            validity_guarantors: validity,
            availability_guarantors: availability,
        },
    );
    g
}

fn block_fetches(ps: &[StatementProducer]) -> usize {
    ps.iter().filter(|p| p.fetch_block_data.is_some()).count()
}

fn extrinsic_fetches(ps: &[StatementProducer]) -> usize {
    ps.iter().filter(|p| p.fetch_extrinsic.is_some()).count()
}

#[test]
fn fork_isolation_for_every_statement_kind() {
    let key = pair(1);
    let c = receipt(PARA, 3);
    for s in [
        Statement::Candidate(c),
        Statement::Valid([3; 32]),
        Statement::Invalid([3; 32]),
        Statement::Available([3; 32]),
    ] {
        let a = sign_table_statement(&s, &key, &[1; 32]);
        let b = sign_table_statement(&s, &key, &[2; 32]);
        assert_ne!(a, b);
        assert_eq!(a, sign_table_statement(&s, &key, &[1; 32]));
    }
}

#[test]
fn signature_verifies_over_statement_and_parent() {
    let key = pair(4);
    let parent = [7u8; 32];
    let s = Statement::Valid([3; 32]);
    let sig = sign_table_statement(&s, &key, &parent);
    let mut message = encode(&s);
    message.extend_from_slice(&parent);
    let public = VerifyingKey::from_bytes(&key.public()).unwrap();
    assert!(public.verify(&message, &Signature::from_bytes(&sig)).is_ok());
    assert!(public.verify(&encode(&s), &Signature::from_bytes(&sig)).is_err());
    assert_ne!(key.public(), [4u8; 32]);
}

#[test]
fn encoding_of_statements() {
    let mut valid = vec![1u8];
    valid.extend_from_slice(&[3; 32]);
    assert_eq!(encode(&Statement::Valid([3; 32])), valid);
    assert_eq!(encode(&Statement::Invalid([3; 32]))[0], 2);
    assert_eq!(encode(&Statement::Available([3; 32]))[0], 3);
    let c = CandidateReceipt {
        parachain_index: 0x0102_0304,
        collator: [5; 32],
        head_data: [6; 32],
        fees: 0x0a0b,
        digest: [7; 32],
    };
    let e = encode(&Statement::Candidate(c));
    assert_eq!(e.len(), 1 + 4 + 32 + 32 + 8 + 32);
    assert_eq!(&e[0..5], &[0, 4, 3, 2, 1]);
    assert_eq!(&e[69..77], &[0x0b, 0x0a, 0, 0, 0, 0, 0, 0]);
    assert_eq!(e[77], 7);
}

#[test]
fn empty_producer_resolves_at_once() {
    let mut p = StatementProducer::empty();
    let r: Result<_, ()> = p.poll(FetchOutcome::Pending, FetchOutcome::Pending);
    assert_eq!(r, Ok(Async::Ready(ProducedStatements { validity: None, availability: None })));
}

#[test]
fn producer_derives_statements_when_fetches_complete() {
    let c = receipt(PARA, 3);
    let mut p = StatementProducer::new(Some(c), Some(c));
    let r: Result<_, ()> = p.poll(FetchOutcome::Fetched(true), FetchOutcome::Pending);
    assert_eq!(r, Ok(Async::NotReady));
    let r: Result<_, ()> = p.poll(FetchOutcome::Pending, FetchOutcome::Fetched(true));
    assert_eq!(
        r,
        Ok(Async::Ready(ProducedStatements {
            validity: Some(Statement::Valid([3; 32])),
            availability: Some(Statement::Available([3; 32])),
        }))
    );

    let mut p = StatementProducer::new(Some(c), None);
    let r: Result<_, ()> = p.poll(FetchOutcome::Fetched(false), FetchOutcome::Pending);
    assert_eq!(
        r,
        Ok(Async::Ready(ProducedStatements { validity: Some(Statement::Invalid([3; 32])), availability: None }))
    );

    let mut p = StatementProducer::new(None, Some(c));
    let r: Result<_, ()> = p.poll(FetchOutcome::Pending, FetchOutcome::Fetched(false));
    assert_eq!(r, Ok(Async::Ready(ProducedStatements { validity: None, availability: None })));
}

#[test]
fn producer_fails_on_first_fetch_error() {
    let c = receipt(PARA, 3);
    let mut p = StatementProducer::new(Some(c), Some(c));
    assert_eq!(p.poll(FetchOutcome::Failed("body"), FetchOutcome::Failed("data")), Err("body"));
    assert_eq!(p.poll(FetchOutcome::Fetched(true), FetchOutcome::Failed("data")), Err("data"));
    // A failure reported for a fetch that is absent is ignored.
    let mut q = StatementProducer::new(None, Some(c));
    assert_eq!(q.poll(FetchOutcome::Failed("body"), FetchOutcome::Pending), Ok(Async::NotReady));
}

#[test]
fn unknown_group_is_fail_safe() {
    let a = pair(1);
    let ctx = TableContext::new(groups(vec![a.public()], vec![a.public()]), a, [0; 32]);
    assert_eq!(ctx.requisite_votes(&99), (usize::MAX, usize::MAX));
    assert!(!ctx.is_member_of(&a.public(), &99));
    assert!(!ctx.is_availability_guarantor_of(&a.public(), &99));
    assert_eq!(ctx.requisite_votes(&PARA), (2, 1));
    assert!(ctx.is_member_of(&a.public(), &PARA));
    assert_eq!(ctx.local_id(), a.public());
}

#[test]
fn single_fetch_for_candidate_then_vote() {
    let a = pair(1);
    let b = pair(2);
    let parent = [8u8; 32];
    let mut table = SharedTable::new(groups(vec![a.public(), b.public()], vec![]), a, parent);
    let c = receipt(PARA, 3);
    let p1 = table.import_statement(signed(Statement::Candidate(c), &b, &parent), Some(b.public()));
    let p2 = table.import_statement(signed(Statement::Valid(c.digest), &b, &parent), Some(b.public()));
    let ps = [p1, p2];
    assert_eq!(block_fetches(&ps), 1);
    assert_eq!(extrinsic_fetches(&ps), 0);
    assert_eq!(p1.fetch_block_data, Some(c));
}

#[test]
fn batch_import_fetches_once() {
    let a = pair(1);
    let b = pair(2);
    let parent = [8u8; 32];
    let mut table = SharedTable::new(groups(vec![a.public(), b.public()], vec![a.public()]), a, parent);
    let c = receipt(PARA, 3);
    let ps = table.import_statements(vec![
        (signed(Statement::Candidate(c), &b, &parent), None),
        (signed(Statement::Valid(c.digest), &b, &parent), Some(b.public())),
    ]);
    assert_eq!(ps.len(), 2);
    assert_eq!(block_fetches(&ps), 1);
    assert_eq!(extrinsic_fetches(&ps), 1);
}

#[test]
fn own_proposal_is_never_fetched_for_validity() {
    let a = pair(1);
    let b = pair(2);
    let parent = [8u8; 32];
    let mut table = SharedTable::new(groups(vec![a.public(), b.public()], vec![a.public()]), a, parent);
    let c = receipt(PARA, 3);
    let p1 = table.sign_and_import(Statement::Candidate(c));
    assert_eq!(table.proposed_hash(), Some(c.digest));
    assert!(p1.fetch_block_data.is_none());
    assert_eq!(p1.fetch_extrinsic, Some(c));
    let p2 = table.import_statement(signed(Statement::Valid(c.digest), &b, &parent), Some(b.public()));
    let p3 = table.import_statement(signed(Statement::Invalid(c.digest), &pair(1), &parent), None);
    assert!(p2.fetch_block_data.is_none());
    assert!(p3.fetch_block_data.is_none());
    let p4 = table.sign_and_import(Statement::Valid(c.digest));
    assert!(p4.fetch_block_data.is_none());
    assert_eq!(table.proposed_hash(), Some(c.digest));
}

#[test]
fn table_rejects_duplicates_outsiders_and_unknown_candidates() {
    let a = pair(1);
    let b = pair(2);
    let outsider = pair(3);
    let parent = [8u8; 32];
    let mut table = SharedTable::new(groups(vec![a.public(), b.public()], vec![b.public()]), a, parent);
    let c = receipt(PARA, 3);
    // A vote on a candidate the table has not seen.
    table.import_statement(signed(Statement::Valid(c.digest), &b, &parent), None);
    // A candidate from an authority outside the group.
    table.import_statement(signed(Statement::Candidate(c), &outsider, &parent), None);
    // A candidate of an unconfigured parachain.
    table.import_statement(signed(Statement::Candidate(receipt(77, 4)), &b, &parent), None);
    assert!(table.with_candidate(&c.digest, |r| r.is_none()));
    let cand = signed(Statement::Candidate(c), &b, &parent);
    table.import_statement(cand, None);
    table.import_statement(cand, None);
    // Availability only from availability guarantors.
    table.import_statement(signed(Statement::Available(c.digest), &a, &parent), None);
    let avail = signed(Statement::Available(c.digest), &b, &parent);
    table.import_statement(avail, None);
    let mut batch = Vec::new();
    table.fill_batch(&mut batch);
    assert_eq!(batch, vec![cand, avail]);
    assert_eq!(table.with_candidate(&c.digest, |r| r), Some(c));
}

#[test]
fn double_vote_is_misbehavior() {
    let a = pair(1);
    let b = pair(2);
    let parent = [8u8; 32];
    let mut table = SharedTable::new(groups(vec![a.public(), b.public()], vec![]), a, parent);
    let c = receipt(PARA, 3);
    table.import_statement(signed(Statement::Candidate(c), &b, &parent), None);
    assert!(table.get_misbehavior().is_empty());
    table.import_statement(signed(Statement::Valid(c.digest), &b, &parent), None);
    let p = table.import_statement(signed(Statement::Invalid(c.digest), &b, &parent), None);
    assert_eq!(p, StatementProducer::empty());
    assert_eq!(table.get_misbehavior(), vec![(b.public(), Misbehavior::ValidityDoubleVote(c.digest))]);
}

#[test]
fn proposal_is_never_accepted_here() {
    let a = pair(1);
    let table = SharedTable::new(HashMap::new(), a, [0; 32]);
    assert!(!table.proposal_valid(&vec![1, 2, 3]));
    assert_eq!(table.proposed_hash(), None);
}

#[test]
fn roster_with_wrong_guarantor_length_fails() {
    let auths = vec![[1u8; 32], [2u8; 32], [3u8; 32]];
    let roster = DutyRoster {
        validator_duty: vec![Chain::Relay, Chain::Parachain(1), Chain::Parachain(1)],
        guarantor_duty: vec![Chain::Relay, Chain::Parachain(1)],
    };
    assert_eq!(make_group_info(roster, &auths).err(), Some(ErrorKind::InvalidDutyRosterLength(3, 2)));
}

#[test]
fn roster_with_wrong_validator_length_fails() {
    let auths = vec![[1u8; 32], [2u8; 32]];
    let roster = DutyRoster { validator_duty: vec![Chain::Relay], guarantor_duty: vec![] };
    assert_eq!(make_group_info(roster, &auths).err(), Some(ErrorKind::InvalidDutyRosterLength(2, 1)));
}

#[test]
fn roster_is_grouped_by_parachain() {
    let auths = vec![[1u8; 32], [2u8; 32], [3u8; 32], [4u8; 32]];
    let roster = DutyRoster {
        validator_duty: vec![Chain::Parachain(1), Chain::Parachain(1), Chain::Parachain(1), Chain::Relay],
        guarantor_duty: vec![Chain::Relay, Chain::Parachain(2), Chain::Parachain(1), Chain::Parachain(2)],
    };
    let groups = make_group_info(roster, &auths).unwrap();
    assert_eq!(groups.len(), 2);
    let g1 = &groups[&1];
    assert_eq!(g1.validity_guarantors, vec![[1u8; 32], [2u8; 32], [3u8; 32]]);
    assert_eq!(g1.availability_guarantors, vec![[3u8; 32]]);
    assert_eq!((g1.needed_validity, g1.needed_availability), (2, 1));
    let g2 = &groups[&2];
    assert!(g2.validity_guarantors.is_empty());
    assert_eq!(g2.availability_guarantors, vec![[2u8; 32], [4u8; 32]]);
    assert_eq!((g2.needed_validity, g2.needed_availability), (0, 1));
}

#[test]
fn statements_with_bad_signatures_are_ignored() {
    let a = pair(1);
    let b = pair(2);
    let parent = [8u8; 32];
    let mut table = SharedTable::new(groups(vec![a.public(), b.public()], vec![]), a, parent);
    let c = receipt(PARA, 3);
    // Signed against another fork.
    let p = table.import_statement(signed(Statement::Candidate(c), &b, &[9u8; 32]), None);
    assert_eq!(p, StatementProducer::empty());
    // Signed by one key, claiming another sender.
    let mut forged = signed(Statement::Candidate(c), &pair(3), &parent);
    forged.sender = b.public();
    table.import_statement(forged, None);
    assert!(table.with_candidate(&c.digest, |r| r.is_none()));
    let p = table.import_statement(signed(Statement::Candidate(c), &b, &parent), None);
    assert_eq!(p.fetch_block_data, Some(c));
}

#[test]
fn verify_table_statement_accepts_only_matching_signatures() {
    let key = pair(5);
    let s = Statement::Available([3; 32]);
    let sig = sign_table_statement(&s, &key, &[1; 32]);
    assert!(verify_table_statement(&s, &key.public(), &sig, &[1; 32]));
    assert!(!verify_table_statement(&s, &key.public(), &sig, &[2; 32]));
    assert!(!verify_table_statement(&Statement::Valid([3; 32]), &key.public(), &sig, &[1; 32]));
    assert!(!verify_table_statement(&s, &pair(6).public(), &sig, &[1; 32]));
}
