//! Proposal creation and the proposal state machine: Draft, Signing, Voting, then
//! Succeeded or Defeated, then Executing and Completed; Cancelled from Draft or Signing.

use vstd::prelude::*;
use crate::address::{
    account_governance_seeds, authenticate, derives_to, get_account_governance_address_seeds,
    get_proposal_address_seeds, proposal_seeds, Address,
};
use crate::error::GovernanceError;
use crate::state::{
    AccountGovernance, GovernanceAccountType, GoverningTokenType, Proposal, ProposalState,
};
use crate::token::{
    assert_spl_token_owner_is_signer, get_supply_from_mint, holds_capability, mint_supply,
    token_layout_ok, AccountData,
};

verus! {

/// The creation of a proposal under an account governance.
#[derive(Clone, Copy, Debug)]
pub struct CreateProposalRequest {
    pub program_id: Address,
    pub proposal_address: Address,
    /// Whether the account at the proposal's address holds no data yet
    pub proposal_data_is_empty: bool,
    pub account_governance_address: Address,
    pub governing_token_type: GoverningTokenType,
    pub admin_mint: Address,
    pub signatory_mint: Address,
}

/// The error of a proposal creation, or none where it succeeds.
pub open spec fn create_proposal_error(
    req: CreateProposalRequest,
    name: Seq<char>,
    governance: AccountGovernance,
) -> Option<GovernanceError> {
    if !req.proposal_data_is_empty {
        Some(GovernanceError::ProposalAlreadyExists)
    } else if !derives_to(
        proposal_seeds(req.account_governance_address@, name),
        req.program_id@,
        req.proposal_address@,
    ) {
        Some(GovernanceError::InvalidSeeds)
    } else if governance.account_type != GovernanceAccountType::AccountGovernance {
        Some(GovernanceError::InvalidAccountData)
    } else if !derives_to(
        account_governance_seeds(governance.realm@, governance.governed_account@),
        req.program_id@,
        req.account_governance_address@,
    ) {
        Some(GovernanceError::InvalidSeeds)
    } else if governance.proposal_count == u32::MAX {
        Some(GovernanceError::ArithmeticOverflow)
    } else {
        None
    }
}

/// Creates a proposal in Draft state at the address derived from its governance and its
/// name, and counts it on the governance. The governance changes only on success, and
/// then by exactly one proposal.
pub fn process_create_proposal(
    req: &CreateProposalRequest,
    name: String,
    description_link: String,
    governance: &mut AccountGovernance,
) -> (r: Result<Proposal, GovernanceError>)
    ensures
        match create_proposal_error(*req, name@, *old(governance)) {
            Some(e) => r matches Err(x) && x == e && *final(governance) == *old(governance),
            None => r matches Ok(p) && {
                &&& p.account_type == GovernanceAccountType::Proposal
                &&& p.account_governance == req.account_governance_address
                &&& p.governing_token_type == req.governing_token_type
                &&& p.state == ProposalState::Draft
                &&& p.description_link@ == description_link@
                &&& p.name@ == name@
                &&& p.signatory_mint == req.signatory_mint
                &&& p.admin_mint == req.admin_mint
                &&& *final(governance) == AccountGovernance {
                    proposal_count: (old(governance).proposal_count + 1) as u32,
                    ..*old(governance)
                }
            },
        },
        !req.proposal_data_is_empty ==> (r matches Err(x) && x == GovernanceError::ProposalAlreadyExists),
{
    if !req.proposal_data_is_empty {
        return Err(GovernanceError::ProposalAlreadyExists);
    }
    authenticate(
        &get_proposal_address_seeds(&req.account_governance_address, &name),
        &req.program_id,
        &req.proposal_address,
    )?;
    if !governance.is_initialized() {
        return Err(GovernanceError::InvalidAccountData);
    }
    authenticate(
        &get_account_governance_address_seeds(&governance.realm, &governance.governed_account),
        &req.program_id,
        &req.account_governance_address,
    )?;
    if governance.proposal_count == u32::MAX {
        return Err(GovernanceError::ArithmeticOverflow);
    }
    governance.proposal_count = governance.proposal_count + 1;
    Ok(
        Proposal {
            account_type: GovernanceAccountType::Proposal,
            account_governance: req.account_governance_address,
            governing_token_type: req.governing_token_type,
            state: ProposalState::Draft,
            description_link,
            name,
            signatory_mint: req.signatory_mint,
            admin_mint: req.admin_mint,
        },
    )
}

/// The error of a capability check, as `assert_spl_token_owner_is_signer` returns it.
pub open spec fn capability_error(token: &AccountData, mint: Address, holder: &AccountData) -> Option<
    GovernanceError,
> {
    if !token_layout_ok(token.data@) {
        Some(GovernanceError::InvalidAccountData)
    } else if !holds_capability(token, mint, holder) {
        Some(GovernanceError::TokenOwnerMustSign)
    } else {
        None
    }
}

/// Cancels a proposal on behalf of the holder of its admin token. Only a proposal in Draft
/// or Signing can be cancelled; the proposal changes only on success.
pub fn process_cancel_proposal(
    proposal: &mut Proposal,
    admin_token_info: &AccountData,
    proposal_owner_info: &AccountData,
) -> (r: Result<(), GovernanceError>)
    ensures
        match capability_error(admin_token_info, old(proposal).admin_mint, proposal_owner_info) {
            Some(e) => r == Err::<(), GovernanceError>(e) && *final(proposal) == *old(proposal),
            None => if old(proposal).state.spec_can_cancel() {
                r is Ok && *final(proposal) == Proposal {
                    state: ProposalState::Cancelled,
                    ..*old(proposal)
                }
            } else {
                r == Err::<(), GovernanceError>(GovernanceError::ProposalCannotBeCancelled)
                    && *final(proposal) == *old(proposal)
            },
        },
{
    assert_spl_token_owner_is_signer(admin_token_info, &proposal.admin_mint, proposal_owner_info)?;
    if !proposal.state.can_cancel() {
        return Err(GovernanceError::ProposalCannotBeCancelled);
    }
    proposal.state = ProposalState::Cancelled;
    Ok(())
}

/// A signatory signs off by burning its signatory token. The signatory mint's supply,
/// read before the burn, tells how many signatory tokens are outstanding: when the
/// signatory's token is the last one, the proposal moves from Draft to Signing.
pub fn sign_off_proposal(
    proposal: &mut Proposal,
    signatory_token_info: &AccountData,
    signatory_info: &AccountData,
    signatory_mint_info: &AccountData,
) -> (r: Result<(), GovernanceError>)
    ensures
        match capability_error(signatory_token_info, old(proposal).signatory_mint, signatory_info) {
            Some(e) => r == Err::<(), GovernanceError>(e) && *final(proposal) == *old(proposal),
            None => if old(proposal).state != ProposalState::Draft {
                r == Err::<(), GovernanceError>(GovernanceError::InvalidStateForAction)
                    && *final(proposal) == *old(proposal)
            } else if signatory_mint_info.key@ != old(proposal).signatory_mint@ || !(mint_supply(
                signatory_mint_info,
            ) matches Some(n) && n > 0) {
                r == Err::<(), GovernanceError>(GovernanceError::InvalidAccountData)
                    && *final(proposal) == *old(proposal)
            } else if mint_supply(signatory_mint_info) == Some(1u64) {
                r is Ok && *final(proposal) == Proposal { state: ProposalState::Signing, ..*old(proposal) }
            } else {
                r is Ok && *final(proposal) == *old(proposal)
            },
        },
{
    assert_spl_token_owner_is_signer(signatory_token_info, &proposal.signatory_mint, signatory_info)?;
    if proposal.state != ProposalState::Draft {
        return Err(GovernanceError::InvalidStateForAction);
    }
    if signatory_mint_info.key != proposal.signatory_mint {
        return Err(GovernanceError::InvalidAccountData);
    }
    let supply = match get_supply_from_mint(signatory_mint_info) {
        Some(n) => n,
        None => {
            return Err(GovernanceError::InvalidAccountData);
        },
    };
    if supply == 0 {
        return Err(GovernanceError::InvalidAccountData);
    }
    if supply == 1 {
        proposal.state = ProposalState::Signing;
    }
    Ok(())
}

} // verus!
