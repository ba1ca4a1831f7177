//! Identity and address derivation.
//!
//! Every record in the store is located by an address derived from a fixed
//! kind of record, an owning identity, and a caller-supplied discriminator.
//! The derivation is a pure function with no mutable state: the derived
//! address is simply the tuple of its inputs, so two derivations collide
//! exactly when their inputs coincide, and a collision on creation means
//! "already exists" rather than overwrite.

use vstd::prelude::*;

verus! {

/// An identity on the ledger: a principal, an asset class, or the address of
/// an independently addressable record. Held as four 64-bit words (256 bits).
#[derive(Clone, Copy, PartialEq, Eq, Structural, Debug)]
pub struct AccountId {
    pub w0: u64,
    pub w1: u64,
    pub w2: u64,
    pub w3: u64,
}

impl AccountId {
    /// Builds an identity from its four words.
    pub fn new(w0: u64, w1: u64, w2: u64, w3: u64) -> (id: AccountId)
        ensures
            id == (AccountId { w0, w1, w2, w3 }),
    {
        AccountId { w0, w1, w2, w3 }
    }

    /// The all-zero identity, used as the "none" value of optional links.
    pub fn zero() -> (id: AccountId)
        ensures
            id == AccountId::zero_id(),
    {
        AccountId { w0: 0, w1: 0, w2: 0, w3: 0 }
    }

    /// The all-zero identity, as a specification value.
    pub open spec fn zero_id() -> AccountId {
        AccountId { w0: 0, w1: 0, w2: 0, w3: 0 }
    }
}

/// Address of a Realm record: derived from the realm kind, the controlling
/// identity, and the caller-supplied name discriminator.
#[derive(Clone, Copy, PartialEq, Eq, Structural, Debug)]
pub struct RealmAddress {
    pub controller: AccountId,
    pub name_seed: u64,
}

/// Address of a Proposal record: derived from the proposal kind, the owning
/// Realm's address, and the caller-supplied ordinal.
#[derive(Clone, Copy, PartialEq, Eq, Structural, Debug)]
pub struct ProposalAddress {
    pub realm: RealmAddress,
    pub ordinal: u64,
}

/// Address of a VoteRecord: derived from the vote kind, the owning Proposal's
/// address, and the voter's identity.
#[derive(Clone, Copy, PartialEq, Eq, Structural, Debug)]
pub struct VoteAddress {
    pub proposal: ProposalAddress,
    pub voter: AccountId,
}

/// Derives the address of the Realm owned by `controller` under `name_seed`.
pub fn derive_realm_address(controller: AccountId, name_seed: u64) -> (a: RealmAddress)
    ensures
        a == (RealmAddress { controller, name_seed }),
{
    RealmAddress { controller, name_seed }
}

/// Derives the address of the Proposal with the given ordinal under a Realm.
pub fn derive_proposal_address(realm: RealmAddress, ordinal: u64) -> (a: ProposalAddress)
    ensures
        a == (ProposalAddress { realm, ordinal }),
{
    ProposalAddress { realm, ordinal }
}

/// Derives the address of the VoteRecord of `voter` on a Proposal.
pub fn derive_vote_address(proposal: ProposalAddress, voter: AccountId) -> (a: VoteAddress)
    ensures
        a == (VoteAddress { proposal, voter }),
{
    VoteAddress { proposal, voter }
}

} // verus!
