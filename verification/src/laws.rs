//! Laws of the voting engine, stated over the abstract `LedgerModel` and the
//! transition functions that the entry points' contracts are pinned to.

use vstd::prelude::*;
use vstd::arithmetic::div_mod::lemma_fundamental_div_mod;
use vstd::arithmetic::mul::lemma_mul_inequality;
use crate::engine::{BASIS_POINT_SCALE, GovernanceError, LedgerModel, ProposalStatus,
    cast_vote_step, finalize_proposal_step, proposal_outcome};
use crate::ids::{AccountId, ProposalAddress, RealmAddress, VoteAddress};

verus! {

/// No double voting: once a voter's vote on a proposal has been accepted, a
/// second cast by the same voter on the same proposal — either side, any
/// positive weight, at any tick still inside the window — fails with
/// `AlreadyVoted` and changes nothing, so the tallies reflect exactly the
/// first call's weight.
pub proof fn lemma_no_double_vote(
    m0: LedgerModel,
    realm_addr: RealmAddress,
    prop_addr: ProposalAddress,
    voter: AccountId,
    support1: bool,
    weight1: u64,
    tick1: u64,
    bump1: u8,
    support2: bool,
    weight2: u64,
    tick2: u64,
    bump2: u8,
)
    requires
        cast_vote_step(m0, realm_addr, prop_addr, voter, support1, weight1, tick1, bump1).1 is Ok,
        weight2 > 0,
        m0.proposals[prop_addr].voting_start_slot <= tick2,
        tick2 <= m0.proposals[prop_addr].voting_end_slot,
    ensures
        ({
            let m1 = cast_vote_step(m0, realm_addr, prop_addr, voter, support1, weight1, tick1,
                bump1).0;
            let (m2, r2) = cast_vote_step(m1, realm_addr, prop_addr, voter, support2, weight2,
                tick2, bump2);
            &&& r2 == Err::<(), GovernanceError>(GovernanceError::AlreadyVoted)
            &&& m2 == m1
            &&& m1.proposals[prop_addr].yes_votes == m0.proposals[prop_addr].yes_votes + (
            if support1 {
                weight1 as int
            } else {
                0
            })
            &&& m1.proposals[prop_addr].no_votes == m0.proposals[prop_addr].no_votes + (
            if support1 {
                0
            } else {
                weight1 as int
            })
        }),
{
}

/// Single-shot finalization: after the first successful `finalize_proposal`,
/// any later call on the same proposal, at any tick past the window, fails
/// with `ProposalClosed` and leaves the first call's terminal status — the
/// deterministic outcome of the accumulated tallies — untouched.
pub proof fn lemma_finalize_single_shot(
    m0: LedgerModel,
    realm_addr: RealmAddress,
    prop_addr: ProposalAddress,
    tick1: u64,
    tick2: u64,
)
    requires
        finalize_proposal_step(m0, realm_addr, prop_addr, tick1).1 is Ok,
        tick2 > m0.proposals[prop_addr].voting_end_slot,
    ensures
        ({
            let m1 = finalize_proposal_step(m0, realm_addr, prop_addr, tick1).0;
            let (m2, r2) = finalize_proposal_step(m1, realm_addr, prop_addr, tick2);
            &&& r2 == Err::<(), GovernanceError>(GovernanceError::ProposalClosed)
            &&& m2 == m1
            &&& m1.proposals[prop_addr].status == proposal_outcome(
                m0.realms[realm_addr].min_quorum,
                m0.realms[realm_addr].approval_threshold,
                m0.proposals[prop_addr].yes_votes,
                m0.proposals[prop_addr].no_votes,
            )
            &&& !(m1.proposals[prop_addr].status is Pending)
        }),
{
}

/// Quorum short-circuit: a total tally below the Realm's quorum resolves
/// `Defeated` before any ratio arithmetic, whatever the split — even a
/// unanimous yes-vote.
pub proof fn lemma_quorum_short_circuit(
    min_quorum: u64,
    approval_threshold: u64,
    yes: u64,
    no: u64,
)
    requires
        yes + no < min_quorum,
    ensures
        proposal_outcome(min_quorum, approval_threshold, yes, no) == ProposalStatus::Defeated,
{
}

/// Approval-ratio boundary: with quorum met and at least one vote counted,
/// the proposal succeeds exactly when `yes * 10_000 >= threshold * total` —
/// the threshold comparison is inclusive.
pub proof fn lemma_approval_boundary(min_quorum: u64, approval_threshold: u64, yes: u64, no: u64)
    requires
        yes + no >= min_quorum,
        yes + no > 0,
    ensures
        proposal_outcome(min_quorum, approval_threshold, yes, no) == ProposalStatus::Succeeded
            <==> yes * BASIS_POINT_SCALE >= approval_threshold * (yes + no),
{
    let a = yes * BASIS_POINT_SCALE;
    let b = yes + no;
    let t = approval_threshold as int;
    let q = a / b;
    lemma_fundamental_div_mod(a, b);
    assert(a == b * q + a % b);
    if q >= t {
        lemma_mul_inequality(t, q, b);
        assert(t * b <= q * b);
    }
    if a >= t * b && q < t {
        lemma_mul_inequality(q + 1, t, b);
        assert((q + 1) * b <= t * b);
        assert(b * q + b <= t * b) by {
            assert((q + 1) * b == q * b + b) by (nonlinear_arith);
        }
        assert(a % b < b);
        assert(false);
    }
}

/// Overflow fails closed in `cast_vote`: a vote that passes every other check
/// but whose weight would push its tally side past the unsigned range fails
/// with `MathOverflow` and changes nothing.
pub proof fn lemma_tally_overflow_fails_closed(
    m0: LedgerModel,
    realm_addr: RealmAddress,
    prop_addr: ProposalAddress,
    voter: AccountId,
    support: bool,
    weight: u64,
    tick: u64,
    bump: u8,
)
    requires
        weight > 0,
        m0.proposals[prop_addr].realm == realm_addr,
        m0.proposals[prop_addr].voting_start_slot <= tick,
        tick <= m0.proposals[prop_addr].voting_end_slot,
        !m0.votes.contains_key((VoteAddress { proposal: prop_addr, voter: voter })),
        if support {
            m0.proposals[prop_addr].yes_votes + weight > u64::MAX
        } else {
            m0.proposals[prop_addr].no_votes + weight > u64::MAX
        },
    ensures
        cast_vote_step(m0, realm_addr, prop_addr, voter, support, weight, tick, bump) == (
        m0,
        Err::<(), GovernanceError>(GovernanceError::MathOverflow),
        ),
{
}

/// Overflow fails closed in `finalize_proposal`: a pending proposal whose
/// combined tallies exceed the unsigned range cannot be resolved; the call
/// fails with `MathOverflow` and the tallies stay as they were.
pub proof fn lemma_total_overflow_fails_closed(
    m0: LedgerModel,
    realm_addr: RealmAddress,
    prop_addr: ProposalAddress,
    tick: u64,
)
    requires
        m0.proposals[prop_addr].realm == realm_addr,
        tick > m0.proposals[prop_addr].voting_end_slot,
        m0.proposals[prop_addr].status is Pending,
        m0.proposals[prop_addr].yes_votes + m0.proposals[prop_addr].no_votes > u64::MAX,
    ensures
        finalize_proposal_step(m0, realm_addr, prop_addr, tick) == (
        m0,
        Err::<(), GovernanceError>(GovernanceError::MathOverflow),
        ),
{
}

} // verus!
