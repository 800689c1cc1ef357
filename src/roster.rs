//! Building the groups of a round from a duty roster.

use crate::context::GroupInfo;
use crate::primitives::{AuthorityId, ParaId};
use std::collections::HashMap;
use vstd::prelude::*;

verus! {

broadcast use vstd::std_specs::hash::group_hash_axioms;

/// The chain an authority is assigned to.
#[derive(Clone, Copy, Debug, PartialEq, Eq)]
pub enum Chain {
    /// The relay chain.
    Relay,
    /// A parachain.
    Parachain(ParaId),
}

/// Assignment of each authority, by index, to a validity duty and a guarantor duty.
#[derive(Clone, Debug)]
pub struct DutyRoster {
    /// The chain each authority checks validity for.
    pub validator_duty: Vec<Chain>,
    /// The chain each authority guarantees data availability for.
    pub guarantor_duty: Vec<Chain>,
}

/// Errors in setting up a round.
#[derive(Clone, Copy, Debug, PartialEq, Eq)]
pub enum ErrorKind {
    /// A duty list of the roster does not have one entry per authority:
    /// the number of authorities, then the list's length.
    InvalidDutyRosterLength(usize, usize),
}

/// The authorities, in order, whose duty is parachain `p`.
pub open spec fn duty_members(authorities: Seq<AuthorityId>, duties: Seq<Chain>, p: ParaId) -> Seq<
    AuthorityId,
>
    decreases authorities.len(),
{
    if authorities.len() == 0 || duties.len() == 0 {
        Seq::empty()
    } else {
        let rest = duty_members(authorities.drop_last(), duties.drop_last(), p);
        if duties.last() == Chain::Parachain(p) {
            rest.push(authorities.last())
        } else {
            rest
        }
    }
}

/// Votes needed out of `n`: a half, rounded up.
pub open spec fn needed_votes(n: nat) -> nat {
    n / 2 + n % 2
}

/// The group of parachain `p` under this roster.
pub open spec fn group_spec(
    authorities: Seq<AuthorityId>,
    validator_duty: Seq<Chain>,
    guarantor_duty: Seq<Chain>,
    p: ParaId,
    g: GroupInfo,
) -> bool {
    &&& g.validity_guarantors@ == duty_members(authorities, validator_duty, p)
    &&& g.availability_guarantors@ == duty_members(authorities, guarantor_duty, p)
    &&& g.needed_validity == needed_votes(g.validity_guarantors@.len())
    &&& g.needed_availability == needed_votes(g.availability_guarantors@.len())
}

fn is_para(c: &Chain, p: ParaId) -> (r: bool)
    ensures
        r == (*c == Chain::Parachain(p)),
{
    match c {
        Chain::Parachain(q) => *q == p,
        Chain::Relay => false,
    }
}

fn members_of(authorities: &Vec<AuthorityId>, duties: &Vec<Chain>, p: ParaId) -> (r: Vec<AuthorityId>)
    requires
        authorities.len() == duties.len(),
    ensures
        r@ == duty_members(authorities@, duties@, p),
{
    let mut out: Vec<AuthorityId> = Vec::new();
    let mut j: usize = 0;
    while j < authorities.len()
        invariant
            0 <= j <= authorities.len(),
            authorities.len() == duties.len(),
            out@ == duty_members(authorities@.subrange(0, j as int), duties@.subrange(0, j as int), p),
        decreases authorities.len() - j,
    {
        assert(authorities@.subrange(0, j + 1).drop_last() =~= authorities@.subrange(0, j as int));
        assert(duties@.subrange(0, j + 1).drop_last() =~= duties@.subrange(0, j as int));
        if is_para(&duties[j], p) {
            out.push(authorities[j]);
        }
        j = j + 1;
    }
    assert(authorities@.subrange(0, j as int) =~= authorities@);
    assert(duties@.subrange(0, j as int) =~= duties@);
    out
}

fn build_group(roster: &DutyRoster, authorities: &Vec<AuthorityId>, p: ParaId) -> (r: GroupInfo)
    requires
        roster.validator_duty.len() == authorities.len(),
        roster.guarantor_duty.len() == authorities.len(),
    ensures
        group_spec(authorities@, roster.validator_duty@, roster.guarantor_duty@, p, r),
{
    let validity_guarantors = members_of(authorities, &roster.validator_duty, p);
    let availability_guarantors = members_of(authorities, &roster.guarantor_duty, p);
    let nv = validity_guarantors.len();
    let na = availability_guarantors.len();
    GroupInfo {
        validity_guarantors,
        availability_guarantors,
        needed_validity: nv / 2 + nv % 2,
        needed_availability: na / 2 + na % 2,
    }
}

/// Builds the groups of a round from a duty roster: each parachain named by
/// a duty gets a group of the authorities assigned to it, needing a half of
/// them, rounded up, to agree. Both duty lists must have one entry per
/// authority, the validator duties being checked first.
pub fn make_group_info(roster: DutyRoster, authorities: &Vec<AuthorityId>) -> (r: Result<
    HashMap<ParaId, GroupInfo>,
    ErrorKind,
>)
    ensures
        roster.validator_duty.len() != authorities.len() ==> r == Err::<
            HashMap<ParaId, GroupInfo>,
            ErrorKind,
        >(ErrorKind::InvalidDutyRosterLength(authorities.len(), roster.validator_duty.len())),
        roster.validator_duty.len() == authorities.len() && roster.guarantor_duty.len()
            != authorities.len() ==> r == Err::<HashMap<ParaId, GroupInfo>, ErrorKind>(
            ErrorKind::InvalidDutyRosterLength(authorities.len(), roster.guarantor_duty.len()),
        ),
        roster.validator_duty.len() == authorities.len() && roster.guarantor_duty.len()
            == authorities.len() ==> r is Ok,
        r matches Ok(m) ==> forall|p: ParaId|
            (#[trigger] m@.contains_key(p) <==> (roster.validator_duty@.contains(Chain::Parachain(p))
                || roster.guarantor_duty@.contains(Chain::Parachain(p)))),
        r matches Ok(m) ==> forall|p: ParaId|
            #[trigger] m@.contains_key(p) ==> group_spec(
                authorities@,
                roster.validator_duty@,
                roster.guarantor_duty@,
                p,
                m@[p],
            ),
{
    if roster.validator_duty.len() != authorities.len() {
        return Err(ErrorKind::InvalidDutyRosterLength(authorities.len(), roster.validator_duty.len()));
    }
    if roster.guarantor_duty.len() != authorities.len() {
        return Err(ErrorKind::InvalidDutyRosterLength(authorities.len(), roster.guarantor_duty.len()));
    }
    let n = authorities.len();
    let mut map: HashMap<ParaId, GroupInfo> = HashMap::new();
    let mut i: usize = 0;
    while i < n
        invariant
            0 <= i <= n,
            n == authorities.len(),
            roster.validator_duty.len() == n,
            roster.guarantor_duty.len() == n,
            forall|p: ParaId|
                #[trigger] map@.contains_key(p) <==> (roster.validator_duty@.subrange(
                    0,
                    i as int,
                ).contains(Chain::Parachain(p)) || roster.guarantor_duty@.subrange(
                    0,
                    i as int,
                ).contains(Chain::Parachain(p))),
            forall|p: ParaId|
                #[trigger] map@.contains_key(p) ==> group_spec(
                    authorities@,
                    roster.validator_duty@,
                    roster.guarantor_duty@,
                    p,
                    map@[p],
                ),
        decreases n - i,
    {
        let ghost vs = roster.validator_duty@;
        let ghost gs = roster.guarantor_duty@;
        let ghost old_map = map@;
        assert(vs.subrange(0, i + 1) =~= vs.subrange(0, i as int).push(vs[i as int]));
        assert(gs.subrange(0, i + 1) =~= gs.subrange(0, i as int).push(gs[i as int]));
        if let Chain::Parachain(p) = roster.validator_duty[i] {
            if !map.contains_key(&p) {
                let g = build_group(&roster, authorities, p);
                map.insert(p, g);
            }
        }
        let ghost mid_map = map@;
        if let Chain::Parachain(p) = roster.guarantor_duty[i] {
            if !map.contains_key(&p) {
                let g = build_group(&roster, authorities, p);
                map.insert(p, g);
            }
        }
        assert forall|p: ParaId| #[trigger]
            map@.contains_key(p) <==> (vs.subrange(0, i + 1).contains(Chain::Parachain(p))
                || gs.subrange(0, i + 1).contains(Chain::Parachain(p))) by {
            let sv = vs.subrange(0, i + 1);
            let sg = gs.subrange(0, i + 1);
            if sv.contains(Chain::Parachain(p)) {
                let k = choose|k: int| 0 <= k < sv.len() && sv[k] == Chain::Parachain(p);
                if k < i {
                    assert(vs.subrange(0, i as int)[k] == Chain::Parachain(p));
                }
            }
            if sg.contains(Chain::Parachain(p)) {
                let k = choose|k: int| 0 <= k < sg.len() && sg[k] == Chain::Parachain(p);
                if k < i {
                    assert(gs.subrange(0, i as int)[k] == Chain::Parachain(p));
                }
            }
            if old_map.contains_key(p) {
                if vs.subrange(0, i as int).contains(Chain::Parachain(p)) {
                    let k = choose|k: int|
                        0 <= k < i && vs.subrange(0, i as int)[k] == Chain::Parachain(p);
                    assert(sv[k] == Chain::Parachain(p));
                } else {
                    let k = choose|k: int|
                        0 <= k < i && gs.subrange(0, i as int)[k] == Chain::Parachain(p);
                    assert(sg[k] == Chain::Parachain(p));
                }
            }
            if vs[i as int] == Chain::Parachain(p) {
                assert(sv[i as int] == Chain::Parachain(p));
            }
            if gs[i as int] == Chain::Parachain(p) {
                assert(sg[i as int] == Chain::Parachain(p));
            }
        }
        i = i + 1;
    }
    assert(roster.validator_duty@.subrange(0, n as int) =~= roster.validator_duty@);
    assert(roster.guarantor_duty@.subrange(0, n as int) =~= roster.guarantor_duty@);
    Ok(map)
}

} // verus!
