//! The governance entities as they are stored at their derived addresses.

use vstd::prelude::*;
use crate::address::Address;

verus! {

/// The kind of record that an account holds.
#[derive(Clone, Copy, Debug, PartialEq, Eq, Structural)]
pub enum GovernanceAccountType {
    /// Default uninitialized account state
    Uninitialized,
    /// Realm
    Realm,
    /// Deposit ledger of one token owner
    VoterRecord,
    /// Governance over an arbitrary account
    AccountGovernance,
    /// Proposal of the first layout
    ProposalOld,
    /// Proposal voting state
    ProposalState,
    /// Vote record of a voter on a proposal
    ProposalVoteRecord,
    /// Single signer transaction of a proposal
    SingleSignerTransaction,
    /// Proposal
    Proposal,
    /// Governance over an upgradable program
    ProgramGovernance,
    /// Root governance of the first layout
    RootGovernance,
}

impl GovernanceAccountType {
    /// The uninitialized account state.
    pub fn default_value() -> (r: GovernanceAccountType)
        ensures
            r == GovernanceAccountType::Uninitialized,
    {
        GovernanceAccountType::Uninitialized
    }
}

/// What state a Proposal is in.
#[derive(Clone, Copy, Debug, PartialEq, Eq, Structural)]
pub enum ProposalState {
    /// Proposal enters Draft state when it's created
    Draft,
    /// The Proposal is being signed by signatories
    Signing,
    /// Taking votes
    Voting,
    /// Voting ended with success
    Succeeded,
    /// Instructions are being executed
    Executing,
    /// Completed
    Completed,
    /// Cancelled
    Cancelled,
    /// Defeated
    Defeated,
}

impl ProposalState {
    /// The state a Proposal is created in.
    pub fn default_value() -> (r: ProposalState)
        ensures
            r == ProposalState::Draft,
    {
        ProposalState::Draft
    }

    pub open spec fn spec_can_cancel(self) -> bool {
        self == ProposalState::Draft || self == ProposalState::Signing
    }

    /// Cancelling is possible before voting starts only.
    pub fn can_cancel(&self) -> (r: bool)
        ensures
            r == self.spec_can_cancel(),
    {
        match self {
            ProposalState::Draft | ProposalState::Signing => true,
            _ => false,
        }
    }
}

/// A vote with its weight.
#[derive(Clone, Copy, Debug, PartialEq, Eq, Structural)]
pub enum Vote {
    /// Yes vote
    Yes(u64),
    /// No vote
    No(u64),
}

/// Which governing token a record or a proposal speaks for.
#[derive(Clone, Copy, Debug, PartialEq, Eq, Structural)]
pub enum GoverningTokenType {
    /// Community token
    Community,
    /// Council token
    Council,
}

/// The root of a governance domain.
#[derive(Clone, Debug)]
pub struct Realm {
    /// Governance account type
    pub account_type: GovernanceAccountType,
    /// Community governing token mint
    pub governance_mint: Address,
    /// Council governing token mint
    pub council_mint: Option<Address>,
    /// Escrow account that holds the community tokens deposited in the realm
    pub governance_token_holding: Address,
    /// Escrow account that holds the council tokens deposited in the realm
    pub council_token_holding: Option<Address>,
    /// Realm name; the realm's address is derived from it
    pub name: String,
}

impl Realm {
    pub open spec fn spec_is_initialized(&self) -> bool {
        self.account_type == GovernanceAccountType::Realm
    }

    pub fn is_initialized(&self) -> (r: bool)
        ensures
            r == self.spec_is_initialized(),
    {
        self.account_type == GovernanceAccountType::Realm
    }

    /// The token type that `mint` stands for in this realm, if any.
    pub open spec fn spec_token_type_of(&self, mint: Address) -> Option<GoverningTokenType> {
        if mint@ == self.governance_mint@ {
            Some(GoverningTokenType::Community)
        } else if self.council_mint matches Some(c) && c@ == mint@ {
            Some(GoverningTokenType::Council)
        } else {
            None
        }
    }

    pub fn token_type_of(&self, mint: &Address) -> (r: Option<GoverningTokenType>)
        ensures
            r == self.spec_token_type_of(*mint),
    {
        if *mint == self.governance_mint {
            Some(GoverningTokenType::Community)
        } else {
            match &self.council_mint {
                Some(c) => {
                    if *c == *mint {
                        Some(GoverningTokenType::Council)
                    } else {
                        None
                    }
                },
                None => None,
            }
        }
    }
}

/// The root governance of the first layout, keyed by name.
#[derive(Clone, Debug)]
pub struct RootGovernance {
    /// Governance account type
    pub account_type: GovernanceAccountType,
    /// Governance name
    pub name: String,
}

impl RootGovernance {
    pub fn is_initialized(&self) -> (r: bool)
        ensures
            r == (self.account_type == GovernanceAccountType::RootGovernance),
    {
        self.account_type == GovernanceAccountType::RootGovernance
    }
}

/// Governance over one account of a realm.
#[derive(Clone, Copy, Debug)]
pub struct AccountGovernance {
    /// Account type
    pub account_type: GovernanceAccountType,
    /// Governance Realm
    pub realm: Address,
    /// Voting threshold in % required to tip the vote
    pub vote_threshold: u8,
    /// Minimum % of tokens for an owner to be able to create a proposal
    pub token_threshold_to_create_proposal: u8,
    /// Minimum waiting time in slots for an instruction to be executed after the vote
    pub min_instruction_hold_up_time: u64,
    /// Account governed by this Governance
    pub governed_account: Address,
    /// Time limit in slots for a proposal to be open for voting
    pub max_voting_time: u64,
    /// Running count of proposals
    pub proposal_count: u32,
}

impl AccountGovernance {
    pub fn is_initialized(&self) -> (r: bool)
        ensures
            r == (self.account_type == GovernanceAccountType::AccountGovernance),
    {
        self.account_type == GovernanceAccountType::AccountGovernance
    }
}

/// Governance over an upgradable program.
#[derive(Clone, Copy, Debug)]
pub struct ProgramGovernance {
    /// Account type
    pub account_type: GovernanceAccountType,
    /// Voting threshold in % required to tip the vote
    pub vote_threshold: u8,
    /// Minimum waiting time in slots for an instruction to be executed after the vote
    pub min_instruction_hold_up_time: u64,
    /// Community governing token mint
    pub governance_mint: Address,
    /// Council governing token mint
    pub council_mint: Option<Address>,
    /// Program governed by this Governance
    pub program: Address,
    /// Time limit in slots for a proposal to be open for voting
    pub max_voting_time: u64,
    /// Running count of proposals
    pub proposal_count: u32,
}

impl ProgramGovernance {
    pub fn is_initialized(&self) -> (r: bool)
        ensures
            r == (self.account_type == GovernanceAccountType::ProgramGovernance),
    {
        self.account_type == GovernanceAccountType::ProgramGovernance
    }
}

/// One governance decision.
#[derive(Clone, Debug)]
pub struct Proposal {
    /// Governance account type
    pub account_type: GovernanceAccountType,
    /// Account Governance the Proposal belongs to
    pub account_governance: Address,
    /// Which governing token votes on the Proposal
    pub governing_token_type: GoverningTokenType,
    /// Current state of the Proposal
    pub state: ProposalState,
    /// Link to the Proposal's description
    pub description_link: String,
    /// Proposal name; the proposal's address is derived from it
    pub name: String,
    /// Mint of the signatory capability tokens
    pub signatory_mint: Address,
    /// Mint of the admin capability token
    pub admin_mint: Address,
}

impl Proposal {
    pub fn is_initialized(&self) -> (r: bool)
        ensures
            r == (self.account_type == GovernanceAccountType::Proposal),
    {
        self.account_type == GovernanceAccountType::Proposal
    }
}

/// Deposit ledger of one (realm, governing token mint, owner).
#[derive(Clone, Copy, Debug)]
pub struct VoterRecord {
    /// Governance account type
    pub account_type: GovernanceAccountType,
    /// The Realm the VoterRecord belongs to
    pub realm: Address,
    /// The type of the Governing Token the record is for
    pub token_type: GoverningTokenType,
    /// The owner of the deposited governing tokens
    pub token_owner: Address,
    /// The amount of governing tokens deposited; the owner's voting weight
    pub token_deposit_amount: u64,
    /// The account allowed to vote with the deposited tokens
    pub vote_authority: Address,
    /// The number of active votes cast by the vote authority
    pub active_votes_count: u8,
}

impl VoterRecord {
    pub fn is_initialized(&self) -> (r: bool)
        ensures
            r == (self.account_type == GovernanceAccountType::VoterRecord),
    {
        self.account_type == GovernanceAccountType::VoterRecord
    }
}

} // verus!
