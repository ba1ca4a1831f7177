//! The governance voting engine.
//!
//! A `GovernanceLedger` is a content-addressed record store holding Realm,
//! Proposal and VoteRecord entries, each keyed by the address derived from
//! its owner and discriminator. The four entry points — `create_realm`,
//! `create_proposal`, `cast_vote` and `finalize_proposal` — are atomic
//! transitions: each either commits fully or fails with one tagged error and
//! leaves every record exactly as it was. Each entry point's behaviour is
//! pinned to an open transition function over the abstract `LedgerModel`
//! (three maps from derived address to record), so callers reason about maps,
//! never about the backing vectors.
//!
//! The substrate beneath the store — a strictly ordered ledger with a
//! monotonic logical clock and atomic commits — is the caller's: the current
//! clock tick, the verified caller identity and the uniqueness nonce of a
//! newly allocated record arrive as parameters. Creation is admitted only at
//! a free address (the store's create-if-absent rule), which is what makes a
//! derivation collision mean "already exists" rather than overwrite.

use vstd::prelude::*;
use crate::ids::{AccountId, ProposalAddress, RealmAddress, VoteAddress};
use crate::ids::{derive_proposal_address, derive_realm_address, derive_vote_address};
use crate::table::{keys_unique, lemma_table_map_contains, lemma_table_map_index,
    lemma_table_map_push, lemma_table_map_update, table_map};

verus! {

/// Thresholds are expressed in basis points: integer units of 1/10,000.
pub const BASIS_POINT_SCALE: u64 = 10_000;

/// Lifecycle of a Proposal: `Pending` until finalized, then exactly one of
/// the two terminal states.
#[derive(Clone, Copy, PartialEq, Eq, Structural, Debug)]
pub enum ProposalStatus {
    Pending,
    Succeeded,
    Defeated,
}

/// The flat error taxonomy of the engine. Every failed operation reports
/// exactly one of these and mutates nothing.
#[derive(Clone, Copy, PartialEq, Eq, Structural, Debug)]
pub enum GovernanceError {
    /// The caller is not the Realm's controller.
    Unauthorized,
    /// `approval_threshold` is above 10,000 basis points.
    InvalidThreshold,
    /// `min_quorum` is above 10,000 basis points.
    InvalidQuorum,
    /// `voting_period_slots` is zero.
    InvalidVotingPeriod,
    /// The requested `voting_start_slot` lies before the current tick.
    VotingAlreadyStarted,
    /// A checked arithmetic step would overflow.
    MathOverflow,
    /// A vote was cast with zero weight.
    InvalidWeight,
    /// The current tick is before the proposal's voting window.
    VotingNotOpen,
    /// The current tick is after the proposal's voting window.
    VotingClosed,
    /// A VoteRecord for this (proposal, voter) pair already exists.
    AlreadyVoted,
    /// The proposal's voting window has not closed yet.
    VotingNotEnded,
    /// The proposal was already finalized.
    ProposalClosed,
    /// The proposal does not belong to the supplied Realm.
    RealmMismatch,
    /// Reserved: the substrate could not supply a uniqueness nonce.
    BumpNotFound,
}

/// A voting jurisdiction: fixed quorum and approval rules owned by one
/// controlling identity.
#[derive(Clone, Copy, PartialEq, Eq, Structural, Debug)]
pub struct Realm {
    /// Identity authorized to open proposals under this Realm.
    pub authority: AccountId,
    /// Asset class whose holdings nominally determine vote weight. The core
    /// records it but never reads balances: weight is caller-supplied.
    pub voting_mint: AccountId,
    /// Optional link to an external membership system; all-zero means none.
    pub dao_address: AccountId,
    /// Caller-supplied name discriminator of the Realm's derived address.
    pub name_seed: u64,
    /// Quorum threshold in basis points, compared against total votes cast.
    pub min_quorum: u64,
    /// Approval threshold in basis points over yes-votes / total votes.
    pub approval_threshold: u64,
    /// Default voting-session length in logical-clock ticks; always positive.
    pub voting_period_slots: u64,
    /// Audit counter of proposals created under this Realm. It does not
    /// allocate ordinals: those are caller-supplied.
    pub proposal_count: u64,
    /// Uniqueness nonce of the record's derived address.
    pub bump: u8,
}

/// One bounded-time voting session under a Realm.
#[derive(Clone, Copy, PartialEq, Eq, Structural, Debug)]
pub struct Proposal {
    /// Address of the owning Realm (immutable back-reference).
    pub realm: RealmAddress,
    /// Identity that opened the proposal.
    pub proposer: AccountId,
    /// Opaque pointer to off-engine content; never interpreted here.
    pub metadata_uri: AccountId,
    /// Caller-supplied ordinal, unique per Realm by address derivation.
    pub proposal_id: u64,
    /// First tick at which votes are accepted.
    pub voting_start_slot: u64,
    /// Last tick at which votes are accepted.
    pub voting_end_slot: u64,
    /// Accumulated weight of supporting votes.
    pub yes_votes: u64,
    /// Accumulated weight of opposing votes.
    pub no_votes: u64,
    /// Lifecycle state; transitions one way, exactly once.
    pub status: ProposalStatus,
    /// Uniqueness nonce of the record's derived address.
    pub bump: u8,
}

/// Proof that a given identity voted on a given proposal; blocks re-voting.
#[derive(Clone, Copy, PartialEq, Eq, Structural, Debug)]
pub struct VoteRecord {
    /// Address of the proposal voted on (back-reference).
    pub proposal: ProposalAddress,
    /// The voter's identity.
    pub voter: AccountId,
    /// True for a yes-vote.
    pub support: bool,
    /// The weight counted into the tally; positive once cast.
    pub weight: u64,
    /// Uniqueness nonce of the record's derived address.
    pub bump: u8,
}

/// A Realm's configuration is within its documented domain.
pub open spec fn realm_wf(r: Realm) -> bool {
    &&& r.min_quorum <= BASIS_POINT_SCALE
    &&& r.approval_threshold <= BASIS_POINT_SCALE
    &&& r.voting_period_slots > 0
}

/// A Proposal's voting window is well-ordered.
pub open spec fn proposal_wf(p: Proposal) -> bool {
    p.voting_start_slot <= p.voting_end_slot
}

/// A stored VoteRecord always carries positive weight: zero weight is the
/// "not yet voted" sentinel and is never stored.
pub open spec fn vote_record_wf(v: VoteRecord) -> bool {
    v.weight > 0
}

/// The abstract state of the store: each record kind as a map from derived
/// address to record.
pub ghost struct LedgerModel {
    pub realms: Map<RealmAddress, Realm>,
    pub proposals: Map<ProposalAddress, Proposal>,
    pub votes: Map<VoteAddress, VoteRecord>,
}

/// Transition of `create_realm`: validates the basis-point thresholds and the
/// voting period, then allocates the Realm at its derived address with the
/// proposal counter at zero. On any validation error the state is unchanged.
pub open spec fn create_realm_step(
    m: LedgerModel,
    authority: AccountId,
    name_seed: u64,
    voting_mint: AccountId,
    min_quorum: u64,
    approval_threshold: u64,
    voting_period_slots: u64,
    dao_address: Option<AccountId>,
    bump: u8,
) -> (LedgerModel, Result<RealmAddress, GovernanceError>) {
    if approval_threshold > BASIS_POINT_SCALE {
        (m, Err(GovernanceError::InvalidThreshold))
    } else if min_quorum > BASIS_POINT_SCALE {
        (m, Err(GovernanceError::InvalidQuorum))
    } else if voting_period_slots == 0 {
        (m, Err(GovernanceError::InvalidVotingPeriod))
    } else {
        let addr = RealmAddress { controller: authority, name_seed: name_seed };
        let realm = Realm {
            authority,
            voting_mint,
            dao_address: if dao_address is Some { dao_address->0 } else { AccountId::zero_id() },
            name_seed,
            min_quorum,
            approval_threshold,
            voting_period_slots,
            proposal_count: 0,
            bump,
        };
        (LedgerModel { realms: m.realms.insert(addr, realm), ..m }, Ok(addr))
    }
}

/// Transition of `create_proposal`: only the Realm's controller may open a
/// proposal, its window may not start in the past, and both the window end
/// and the Realm's audit counter are computed with checked arithmetic. On
/// success the Proposal is allocated at its derived address with status
/// `Pending` and zero tallies, and the Realm's counter is incremented.
pub open spec fn create_proposal_step(
    m: LedgerModel,
    realm_addr: RealmAddress,
    proposer: AccountId,
    authority: AccountId,
    proposal_id: u64,
    metadata_uri: AccountId,
    voting_start_slot: u64,
    current_slot: u64,
    bump: u8,
) -> (LedgerModel, Result<ProposalAddress, GovernanceError>) {
    let r = m.realms[realm_addr];
    if r.authority != authority {
        (m, Err(GovernanceError::Unauthorized))
    } else if voting_start_slot < current_slot {
        (m, Err(GovernanceError::VotingAlreadyStarted))
    } else if voting_start_slot + r.voting_period_slots > u64::MAX {
        (m, Err(GovernanceError::MathOverflow))
    } else if r.proposal_count + 1 > u64::MAX {
        (m, Err(GovernanceError::MathOverflow))
    } else {
        let paddr = ProposalAddress { realm: realm_addr, ordinal: proposal_id };
        let p = Proposal {
            realm: realm_addr,
            proposer,
            metadata_uri,
            proposal_id,
            voting_start_slot,
            voting_end_slot: (voting_start_slot + r.voting_period_slots) as u64,
            yes_votes: 0,
            no_votes: 0,
            status: ProposalStatus::Pending,
            bump,
        };
        let r2 = Realm { proposal_count: (r.proposal_count + 1) as u64, ..r };
        (
            LedgerModel {
                realms: m.realms.insert(realm_addr, r2),
                proposals: m.proposals.insert(paddr, p),
                ..m
            },
            Ok(paddr),
        )
    }
}

/// Transition of `cast_vote`: a positive weight, a matching Realm
/// back-reference and a tick inside the closed window are required; at most
/// one VoteRecord may exist per (proposal, voter); the tally side is grown
/// with checked arithmetic. On success the VoteRecord is allocated and
/// exactly one tally accumulates the weight.
pub open spec fn cast_vote_step(
    m: LedgerModel,
    realm_addr: RealmAddress,
    prop_addr: ProposalAddress,
    voter: AccountId,
    support: bool,
    weight: u64,
    current_slot: u64,
    bump: u8,
) -> (LedgerModel, Result<(), GovernanceError>) {
    let p = m.proposals[prop_addr];
    let vaddr = VoteAddress { proposal: prop_addr, voter: voter };
    if weight == 0 {
        (m, Err(GovernanceError::InvalidWeight))
    } else if p.realm != realm_addr {
        (m, Err(GovernanceError::RealmMismatch))
    } else if current_slot < p.voting_start_slot {
        (m, Err(GovernanceError::VotingNotOpen))
    } else if current_slot > p.voting_end_slot {
        (m, Err(GovernanceError::VotingClosed))
    } else if m.votes.contains_key(vaddr) {
        (m, Err(GovernanceError::AlreadyVoted))
    } else if support && p.yes_votes + weight > u64::MAX {
        (m, Err(GovernanceError::MathOverflow))
    } else if !support && p.no_votes + weight > u64::MAX {
        (m, Err(GovernanceError::MathOverflow))
    } else {
        let p2 = if support {
            Proposal { yes_votes: (p.yes_votes + weight) as u64, ..p }
        } else {
            Proposal { no_votes: (p.no_votes + weight) as u64, ..p }
        };
        let rec = VoteRecord { proposal: prop_addr, voter, support, weight, bump };
        (
            LedgerModel {
                proposals: m.proposals.insert(prop_addr, p2),
                votes: m.votes.insert(vaddr, rec),
                ..m
            },
            Ok(()),
        )
    }
}

/// The approval ratio in basis points: yes-votes over total votes, with the
/// divisor clamped to one so an empty tally yields zero.
pub open spec fn approval_ratio(yes: u64, no: u64) -> int {
    (yes * BASIS_POINT_SCALE) / (if yes + no > 0 { yes + no } else { 1 })
}

/// The deterministic outcome of finalization: quorum failure defeats the
/// proposal before any ratio arithmetic; otherwise an approval ratio at or
/// above the threshold (inclusive) succeeds.
pub open spec fn proposal_outcome(min_quorum: u64, approval_threshold: u64, yes: u64, no: u64)
    -> ProposalStatus {
    if yes + no < min_quorum {
        ProposalStatus::Defeated
    } else if approval_ratio(yes, no) >= approval_threshold {
        ProposalStatus::Succeeded
    } else {
        ProposalStatus::Defeated
    }
}

/// Transition of `finalize_proposal`: any party may invoke it once the
/// window has closed; it is single-shot (only a `Pending` proposal may be
/// resolved) and writes `proposal_outcome` as the terminal status. The total
/// tally is computed with checked arithmetic.
pub open spec fn finalize_proposal_step(
    m: LedgerModel,
    realm_addr: RealmAddress,
    prop_addr: ProposalAddress,
    current_slot: u64,
) -> (LedgerModel, Result<(), GovernanceError>) {
    let r = m.realms[realm_addr];
    let p = m.proposals[prop_addr];
    if p.realm != realm_addr {
        (m, Err(GovernanceError::RealmMismatch))
    } else if current_slot <= p.voting_end_slot {
        (m, Err(GovernanceError::VotingNotEnded))
    } else if !(p.status is Pending) {
        (m, Err(GovernanceError::ProposalClosed))
    } else if p.yes_votes + p.no_votes > u64::MAX {
        (m, Err(GovernanceError::MathOverflow))
    } else {
        let p2 = Proposal {
            status: proposal_outcome(r.min_quorum, r.approval_threshold, p.yes_votes, p.no_votes),
            ..p
        };
        (LedgerModel { proposals: m.proposals.insert(prop_addr, p2), ..m }, Ok(()))
    }
}

/// The record store: one table per record kind, each keyed by the record's
/// derived address.
pub struct GovernanceLedger {
    realms: Vec<(RealmAddress, Realm)>,
    proposals: Vec<(ProposalAddress, Proposal)>,
    votes: Vec<(VoteAddress, VoteRecord)>,
}

impl View for GovernanceLedger {
    type V = LedgerModel;

    closed spec fn view(&self) -> LedgerModel {
        LedgerModel {
            realms: table_map(self.realms@),
            proposals: table_map(self.proposals@),
            votes: table_map(self.votes@),
        }
    }
}

impl GovernanceLedger {
    /// The store's invariant: addresses are unique within each table and
    /// every stored record satisfies its own invariant.
    pub closed spec fn wf(self) -> bool {
        &&& keys_unique(self.realms@)
        &&& keys_unique(self.proposals@)
        &&& keys_unique(self.votes@)
        &&& forall|i: int|
            0 <= i < self.realms@.len() ==> realm_wf(#[trigger] self.realms@[i].1)
        &&& forall|i: int|
            0 <= i < self.proposals@.len() ==> proposal_wf(#[trigger] self.proposals@[i].1)
        &&& forall|i: int|
            0 <= i < self.votes@.len() ==> vote_record_wf(#[trigger] self.votes@[i].1)
    }

    /// An empty store.
    pub fn new() -> (l: GovernanceLedger)
        ensures
            l.wf(),
            l@.realms == Map::<RealmAddress, Realm>::empty(),
            l@.proposals == Map::<ProposalAddress, Proposal>::empty(),
            l@.votes == Map::<VoteAddress, VoteRecord>::empty(),
    {
        GovernanceLedger { realms: Vec::new(), proposals: Vec::new(), votes: Vec::new() }
    }

    /// Looks up a Realm by its derived address.
    pub fn realm(&self, addr: RealmAddress) -> (r: Option<Realm>)
        requires
            self.wf(),
        ensures
            match r {
                Some(rec) => self@.realms.contains_key(addr) && rec == self@.realms[addr],
                None => !self@.realms.contains_key(addr),
            },
    {
        let n = self.realms.len();
        let mut i: usize = 0;
        while i < n
            invariant
                n == self.realms@.len(),
                0 <= i <= n,
                forall|j: int| 0 <= j < i ==> self.realms@[j].0 != addr,
                self.wf(),
            decreases n - i,
        {
            if self.realms[i].0 == addr {
                proof {
                    lemma_table_map_index(self.realms@, i as int);
                }
                return Some(self.realms[i].1);
            }
            i += 1;
        }
        proof {
            lemma_table_map_contains(self.realms@, addr);
        }
        None
    }

    /// Looks up a Proposal by its derived address.
    pub fn proposal(&self, addr: ProposalAddress) -> (r: Option<Proposal>)
        requires
            self.wf(),
        ensures
            match r {
                Some(rec) => self@.proposals.contains_key(addr) && rec == self@.proposals[addr],
                None => !self@.proposals.contains_key(addr),
            },
    {
        let n = self.proposals.len();
        let mut i: usize = 0;
        while i < n
            invariant
                n == self.proposals@.len(),
                0 <= i <= n,
                forall|j: int| 0 <= j < i ==> self.proposals@[j].0 != addr,
                self.wf(),
            decreases n - i,
        {
            if self.proposals[i].0 == addr {
                proof {
                    lemma_table_map_index(self.proposals@, i as int);
                }
                return Some(self.proposals[i].1);
            }
            i += 1;
        }
        proof {
            lemma_table_map_contains(self.proposals@, addr);
        }
        None
    }

    /// Looks up a VoteRecord by its derived address.
    pub fn vote_record(&self, addr: VoteAddress) -> (r: Option<VoteRecord>)
        requires
            self.wf(),
        ensures
            match r {
                Some(rec) => self@.votes.contains_key(addr) && rec == self@.votes[addr],
                None => !self@.votes.contains_key(addr),
            },
    {
        let n = self.votes.len();
        let mut i: usize = 0;
        while i < n
            invariant
                n == self.votes@.len(),
                0 <= i <= n,
                forall|j: int| 0 <= j < i ==> self.votes@[j].0 != addr,
                self.wf(),
            decreases n - i,
        {
            if self.votes[i].0 == addr {
                proof {
                    lemma_table_map_index(self.votes@, i as int);
                }
                return Some(self.votes[i].1);
            }
            i += 1;
        }
        proof {
            lemma_table_map_contains(self.votes@, addr);
        }
        None
    }

    /// Creates a Realm owned by `authority` under `name_seed`. The store
    /// admits creation only at a free address: a derivation collision is
    /// resolved by the substrate's create-if-absent rule before the engine
    /// runs, so the caller must not hold a Realm at this address already.
    pub fn create_realm(
        &mut self,
        authority: AccountId,
        name_seed: u64,
        voting_mint: AccountId,
        min_quorum: u64,
        approval_threshold: u64,
        voting_period_slots: u64,
        dao_address: Option<AccountId>,
        bump: u8,
    ) -> (result: Result<RealmAddress, GovernanceError>)
        requires
            old(self).wf(),
            !old(self)@.realms.contains_key(
                (RealmAddress { controller: authority, name_seed: name_seed }),
            ),
        ensures
            final(self).wf(),
            ({
                let (m, r) = create_realm_step(
                    old(self)@,
                    authority,
                    name_seed,
                    voting_mint,
                    min_quorum,
                    approval_threshold,
                    voting_period_slots,
                    dao_address,
                    bump,
                );
                final(self)@ == m && result == r
            }),
    {
        if approval_threshold > BASIS_POINT_SCALE {
            return Err(GovernanceError::InvalidThreshold);
        }
        if min_quorum > BASIS_POINT_SCALE {
            return Err(GovernanceError::InvalidQuorum);
        }
        if voting_period_slots == 0 {
            return Err(GovernanceError::InvalidVotingPeriod);
        }
        let addr = derive_realm_address(authority, name_seed);
        let dao_link = match dao_address {
            Some(d) => d,
            None => AccountId::zero(),
        };
        let realm = Realm {
            authority,
            voting_mint,
            dao_address: dao_link,
            name_seed,
            min_quorum,
            approval_threshold,
            voting_period_slots,
            proposal_count: 0,
            bump,
        };
        self.realms.push((addr, realm));
        proof {
            lemma_table_map_contains(old(self).realms@, addr);
            lemma_table_map_push(old(self).realms@, addr, realm);
            assert forall|i: int| 0 <= i < self.realms@.len() implies realm_wf(
                #[trigger] self.realms@[i].1,
            ) by {
                if i < old(self).realms@.len() {
                    assert(self.realms@[i] == old(self).realms@[i]);
                }
            }
        }
        Ok(addr)
    }

    /// Opens a Proposal under the Realm at `realm_addr`, on behalf of the
    /// verified caller `authority`. The Realm must be a loaded record and the
    /// proposal's derived address must be free (create-if-absent).
    pub fn create_proposal(
        &mut self,
        realm_addr: RealmAddress,
        proposer: AccountId,
        authority: AccountId,
        proposal_id: u64,
        metadata_uri: AccountId,
        voting_start_slot: u64,
        current_slot: u64,
        bump: u8,
    ) -> (result: Result<ProposalAddress, GovernanceError>)
        requires
            old(self).wf(),
            old(self)@.realms.contains_key(realm_addr),
            !old(self)@.proposals.contains_key(
                (ProposalAddress { realm: realm_addr, ordinal: proposal_id }),
            ),
        ensures
            final(self).wf(),
            ({
                let (m, r) = create_proposal_step(
                    old(self)@,
                    realm_addr,
                    proposer,
                    authority,
                    proposal_id,
                    metadata_uri,
                    voting_start_slot,
                    current_slot,
                    bump,
                );
                final(self)@ == m && result == r
            }),
    {
        let ri = find_realm_idx(&self.realms, realm_addr);
        let r = self.realms[ri].1;
        proof {
            lemma_table_map_index(self.realms@, ri as int);
        }
        if r.authority != authority {
            return Err(GovernanceError::Unauthorized);
        }
        if voting_start_slot < current_slot {
            return Err(GovernanceError::VotingAlreadyStarted);
        }
        if voting_start_slot > u64::MAX - r.voting_period_slots {
            return Err(GovernanceError::MathOverflow);
        }
        if r.proposal_count == u64::MAX {
            return Err(GovernanceError::MathOverflow);
        }
        let paddr = derive_proposal_address(realm_addr, proposal_id);
        let p = Proposal {
            realm: realm_addr,
            proposer,
            metadata_uri,
            proposal_id,
            voting_start_slot,
            voting_end_slot: voting_start_slot + r.voting_period_slots,
            yes_votes: 0,
            no_votes: 0,
            status: ProposalStatus::Pending,
            bump,
        };
        let r2 = Realm { proposal_count: r.proposal_count + 1, ..r };
        self.realms.set(ri, (realm_addr, r2));
        self.proposals.push((paddr, p));
        proof {
            lemma_table_map_update(old(self).realms@, ri as int, realm_addr, r2);
            lemma_table_map_contains(old(self).proposals@, paddr);
            lemma_table_map_push(old(self).proposals@, paddr, p);
            assert forall|i: int| 0 <= i < self.realms@.len() implies realm_wf(
                #[trigger] self.realms@[i].1,
            ) by {
                if i != ri as int {
                    assert(self.realms@[i] == old(self).realms@[i]);
                }
            }
            assert forall|i: int| 0 <= i < self.proposals@.len() implies proposal_wf(
                #[trigger] self.proposals@[i].1,
            ) by {
                if i < old(self).proposals@.len() {
                    assert(self.proposals@[i] == old(self).proposals@[i]);
                }
            }
        }
        Ok(paddr)
    }

    /// Casts a weighted vote by `voter` on the proposal at `prop_addr` under
    /// the Realm at `realm_addr`, at tick `current_slot`. The first
    /// successful call creates the (proposal, voter) VoteRecord and adds the
    /// weight to exactly one tally; any later call finds the record and fails
    /// with `AlreadyVoted`, whatever its weight or side.
    pub fn cast_vote(
        &mut self,
        realm_addr: RealmAddress,
        prop_addr: ProposalAddress,
        voter: AccountId,
        support: bool,
        weight: u64,
        current_slot: u64,
        bump: u8,
    ) -> (result: Result<(), GovernanceError>)
        requires
            old(self).wf(),
            old(self)@.realms.contains_key(realm_addr),
            old(self)@.proposals.contains_key(prop_addr),
        ensures
            final(self).wf(),
            ({
                let (m, r) = cast_vote_step(
                    old(self)@,
                    realm_addr,
                    prop_addr,
                    voter,
                    support,
                    weight,
                    current_slot,
                    bump,
                );
                final(self)@ == m && result == r
            }),
    {
        if weight == 0 {
            return Err(GovernanceError::InvalidWeight);
        }
        let pi = find_proposal_idx(&self.proposals, prop_addr);
        let p = self.proposals[pi].1;
        proof {
            lemma_table_map_index(self.proposals@, pi as int);
        }
        if p.realm != realm_addr {
            return Err(GovernanceError::RealmMismatch);
        }
        if current_slot < p.voting_start_slot {
            return Err(GovernanceError::VotingNotOpen);
        }
        if current_slot > p.voting_end_slot {
            return Err(GovernanceError::VotingClosed);
        }
        let vaddr = derive_vote_address(prop_addr, voter);
        if has_vote(&self.votes, vaddr) {
            return Err(GovernanceError::AlreadyVoted);
        }
        let p2: Proposal;
        if support {
            if weight > u64::MAX - p.yes_votes {
                return Err(GovernanceError::MathOverflow);
            }
            p2 = Proposal { yes_votes: p.yes_votes + weight, ..p };
        } else {
            if weight > u64::MAX - p.no_votes {
                return Err(GovernanceError::MathOverflow);
            }
            p2 = Proposal { no_votes: p.no_votes + weight, ..p };
        }
        let rec = VoteRecord { proposal: prop_addr, voter, support, weight, bump };
        self.proposals.set(pi, (prop_addr, p2));
        self.votes.push((vaddr, rec));
        proof {
            lemma_table_map_update(old(self).proposals@, pi as int, prop_addr, p2);
            lemma_table_map_contains(old(self).votes@, vaddr);
            lemma_table_map_push(old(self).votes@, vaddr, rec);
            assert forall|i: int| 0 <= i < self.proposals@.len() implies proposal_wf(
                #[trigger] self.proposals@[i].1,
            ) by {
                if i != pi as int {
                    assert(self.proposals@[i] == old(self).proposals@[i]);
                }
            }
            assert forall|i: int| 0 <= i < self.votes@.len() implies vote_record_wf(
                #[trigger] self.votes@[i].1,
            ) by {
                if i < old(self).votes@.len() {
                    assert(self.votes@[i] == old(self).votes@[i]);
                }
            }
        }
        Ok(())
    }

    /// Resolves the proposal at `prop_addr` once its window has closed. Any
    /// party may call it; it needs no controlling signature. Exactly once:
    /// the first successful call writes the terminal status, every later one
    /// fails with `ProposalClosed` and changes nothing.
    pub fn finalize_proposal(
        &mut self,
        realm_addr: RealmAddress,
        prop_addr: ProposalAddress,
        current_slot: u64,
    ) -> (result: Result<(), GovernanceError>)
        requires
            old(self).wf(),
            old(self)@.realms.contains_key(realm_addr),
            old(self)@.proposals.contains_key(prop_addr),
        ensures
            final(self).wf(),
            ({
                let (m, r) = finalize_proposal_step(old(self)@, realm_addr, prop_addr, current_slot);
                final(self)@ == m && result == r
            }),
    {
        let ri = find_realm_idx(&self.realms, realm_addr);
        let r = self.realms[ri].1;
        proof {
            lemma_table_map_index(self.realms@, ri as int);
        }
        let pi = find_proposal_idx(&self.proposals, prop_addr);
        let p = self.proposals[pi].1;
        proof {
            lemma_table_map_index(self.proposals@, pi as int);
        }
        if p.realm != realm_addr {
            return Err(GovernanceError::RealmMismatch);
        }
        if current_slot <= p.voting_end_slot {
            return Err(GovernanceError::VotingNotEnded);
        }
        match p.status {
            ProposalStatus::Pending => {},
            _ => {
                return Err(GovernanceError::ProposalClosed);
            },
        }
        if p.yes_votes > u64::MAX - p.no_votes {
            return Err(GovernanceError::MathOverflow);
        }
        let total: u64 = p.yes_votes + p.no_votes;
        let status: ProposalStatus;
        if total < r.min_quorum {
            status = ProposalStatus::Defeated;
        } else {
            let denom: u128 = if total > 0 {
                total as u128
            } else {
                1u128
            };
            let ratio: u128 = (p.yes_votes as u128) * (BASIS_POINT_SCALE as u128) / denom;
            status = if ratio >= r.approval_threshold as u128 {
                ProposalStatus::Succeeded
            } else {
                ProposalStatus::Defeated
            };
        }
        assert(status == proposal_outcome(r.min_quorum, r.approval_threshold, p.yes_votes,
            p.no_votes));
        let p2 = Proposal { status, ..p };
        self.proposals.set(pi, (prop_addr, p2));
        proof {
            lemma_table_map_update(old(self).proposals@, pi as int, prop_addr, p2);
            assert forall|i: int| 0 <= i < self.proposals@.len() implies proposal_wf(
                #[trigger] self.proposals@[i].1,
            ) by {
                if i != pi as int {
                    assert(self.proposals@[i] == old(self).proposals@[i]);
                }
            }
        }
        Ok(())
    }
}

/// Index of the Realm pair carrying `addr`; the address must be present.
fn find_realm_idx(realms: &Vec<(RealmAddress, Realm)>, addr: RealmAddress) -> (i: usize)
    requires
        table_map(realms@).contains_key(addr),
    ensures
        i < realms@.len(),
        realms@[i as int].0 == addr,
{
    let n = realms.len();
    let mut i: usize = 0;
    while i < n
        invariant
            n == realms@.len(),
            0 <= i <= n,
            forall|j: int| 0 <= j < i ==> realms@[j].0 != addr,
            table_map(realms@).contains_key(addr),
        decreases n - i,
    {
        if realms[i].0 == addr {
            return i;
        }
        i += 1;
    }
    proof {
        lemma_table_map_contains(realms@, addr);
        assert(false);
    }
    0
}

/// Index of the Proposal pair carrying `addr`; the address must be present.
fn find_proposal_idx(proposals: &Vec<(ProposalAddress, Proposal)>, addr: ProposalAddress) -> (i:
    usize)
    requires
        table_map(proposals@).contains_key(addr),
    ensures
        i < proposals@.len(),
        proposals@[i as int].0 == addr,
{
    let n = proposals.len();
    let mut i: usize = 0;
    while i < n
        invariant
            n == proposals@.len(),
            0 <= i <= n,
            forall|j: int| 0 <= j < i ==> proposals@[j].0 != addr,
            table_map(proposals@).contains_key(addr),
        decreases n - i,
    {
        if proposals[i].0 == addr {
            return i;
        }
        i += 1;
    }
    proof {
        lemma_table_map_contains(proposals@, addr);
        assert(false);
    }
    0
}

/// Whether a VoteRecord exists at `addr`.
fn has_vote(votes: &Vec<(VoteAddress, VoteRecord)>, addr: VoteAddress) -> (r: bool)
    ensures
        r <==> table_map(votes@).contains_key(addr),
{
    let n = votes.len();
    let mut i: usize = 0;
    while i < n
        invariant
            n == votes@.len(),
            0 <= i <= n,
            forall|j: int| 0 <= j < i ==> votes@[j].0 != addr,
        decreases n - i,
    {
        if votes[i].0 == addr {
            proof {
                lemma_table_map_contains(votes@, addr);
            }
            return true;
        }
        i += 1;
    }
    proof {
        lemma_table_map_contains(votes@, addr);
    }
    false
}

} // verus!
