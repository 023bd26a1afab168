//! Creation of realms and governances, and delegation of a voter record's vote authority.

use vstd::prelude::*;
use crate::address::{
    account_governance_seeds, authenticate, derives_to, get_account_governance_address_seeds,
    get_governing_token_holding_address_seeds, get_program_governance_address_seeds,
    get_realm_address_seeds, get_vote_record_address_seeds, holding_seeds,
    program_governance_seeds, realm_seeds, voter_record_seeds, Address,
};
use crate::error::GovernanceError;
use crate::loader::{assert_program_upgrade_authority, upgrade_authority_error};
use crate::state::{
    AccountGovernance, GovernanceAccountType, ProgramGovernance, Realm, VoterRecord,
};
use crate::token::AccountData;

verus! {

/// The creation of a realm with its escrow holding accounts.
#[derive(Clone, Copy, Debug)]
pub struct CreateRealmRequest {
    pub program_id: Address,
    pub realm_address: Address,
    /// Whether the account at the realm's address already holds data
    pub realm_exists: bool,
    pub community_mint: Address,
    pub community_holding_address: Address,
    /// The council mint and its holding account, if the realm has a council
    pub council: Option<(Address, Address)>,
}

/// The error of a realm creation, or none where it succeeds.
pub open spec fn create_realm_error(req: CreateRealmRequest, name: Seq<char>) -> Option<GovernanceError> {
    if req.realm_exists {
        Some(GovernanceError::AccountAlreadyInitialized)
    } else if !derives_to(realm_seeds(name), req.program_id@, req.realm_address@) {
        Some(GovernanceError::InvalidSeeds)
    } else if !derives_to(
        holding_seeds(req.realm_address@, req.community_mint@),
        req.program_id@,
        req.community_holding_address@,
    ) {
        Some(GovernanceError::InvalidSeeds)
    } else {
        match req.council {
            Some((mint, holding)) => if !derives_to(
                holding_seeds(req.realm_address@, mint@),
                req.program_id@,
                holding@,
            ) {
                Some(GovernanceError::InvalidSeeds)
            } else {
                None
            },
            None => None,
        }
    }
}

/// Creates a realm at the address derived from its name; its escrow holding accounts must
/// be at the addresses derived from the realm and each mint.
pub fn process_create_realm(req: &CreateRealmRequest, name: String) -> (r: Result<Realm, GovernanceError>)
    ensures
        match create_realm_error(*req, name@) {
            Some(e) => r matches Err(x) && x == e,
            None => r matches Ok(realm) && {
                &&& realm.account_type == GovernanceAccountType::Realm
                &&& realm.governance_mint == req.community_mint
                &&& realm.council_mint == (match req.council {
                    Some(c) => Some(c.0),
                    None => None,
                })
                &&& realm.governance_token_holding == req.community_holding_address
                &&& realm.council_token_holding == (match req.council {
                    Some(c) => Some(c.1),
                    None => None,
                })
                &&& realm.name@ == name@
            },
        },
{
    if req.realm_exists {
        return Err(GovernanceError::AccountAlreadyInitialized);
    }
    authenticate(&get_realm_address_seeds(&name), &req.program_id, &req.realm_address)?;
    authenticate(
        &get_governing_token_holding_address_seeds(&req.realm_address, &req.community_mint),
        &req.program_id,
        &req.community_holding_address,
    )?;
    let (council_mint, council_token_holding) = match req.council {
        Some((mint, holding)) => {
            authenticate(
                &get_governing_token_holding_address_seeds(&req.realm_address, &mint),
                &req.program_id,
                &holding,
            )?;
            (Some(mint), Some(holding))
        },
        None => (None, None),
    };
    Ok(
        Realm {
            account_type: GovernanceAccountType::Realm,
            governance_mint: req.community_mint,
            council_mint,
            governance_token_holding: req.community_holding_address,
            council_token_holding,
            name,
        },
    )
}

/// The parameters of a governance to create.
#[derive(Clone, Copy, Debug)]
pub struct CreateGovernanceRequest {
    pub program_id: Address,
    pub realm_address: Address,
    pub governance_address: Address,
    /// Whether the account at the governance's address already holds data
    pub governance_exists: bool,
    /// The governed account or program
    pub governed: Address,
    pub vote_threshold: u8,
    pub min_instruction_hold_up_time: u64,
    pub max_voting_time: u64,
    pub token_threshold_to_create_proposal: u8,
}

/// The checks shared by both kinds of governance; `seeds` are the governance's seeds.
pub open spec fn create_governance_error(
    req: CreateGovernanceRequest,
    realm: &Realm,
    seeds: Seq<Seq<u8>>,
) -> Option<GovernanceError> {
    if req.governance_exists {
        Some(GovernanceError::AccountAlreadyInitialized)
    } else if !realm.spec_is_initialized() {
        Some(GovernanceError::InvalidAccountData)
    } else if !derives_to(realm_seeds(realm.name@), req.program_id@, req.realm_address@) {
        Some(GovernanceError::InvalidSeeds)
    } else if !derives_to(seeds, req.program_id@, req.governance_address@) {
        Some(GovernanceError::InvalidSeeds)
    } else if req.vote_threshold > 100 {
        Some(GovernanceError::InvalidVoteThreshold)
    } else {
        None
    }
}

fn check_governance(req: &CreateGovernanceRequest, realm: &Realm, seeds: &Vec<Vec<u8>>) -> (r: Result<
    (),
    GovernanceError,
>)
    ensures
        match create_governance_error(*req, realm, seeds.deep_view()) {
            Some(e) => r == Err::<(), GovernanceError>(e),
            None => r is Ok,
        },
{
    if req.governance_exists {
        return Err(GovernanceError::AccountAlreadyInitialized);
    }
    if !realm.is_initialized() {
        return Err(GovernanceError::InvalidAccountData);
    }
    authenticate(&get_realm_address_seeds(&realm.name), &req.program_id, &req.realm_address)?;
    authenticate(seeds, &req.program_id, &req.governance_address)?;
    if req.vote_threshold > 100 {
        return Err(GovernanceError::InvalidVoteThreshold);
    }
    Ok(())
}

/// Creates the governance over an account of a realm, with no proposals yet.
pub fn process_create_account_governance(req: &CreateGovernanceRequest, realm: &Realm) -> (r: Result<
    AccountGovernance,
    GovernanceError,
>)
    ensures
        match create_governance_error(
            *req,
            realm,
            account_governance_seeds(req.realm_address@, req.governed@),
        ) {
            Some(e) => r matches Err(x) && x == e,
            None => r matches Ok(g) && g == (AccountGovernance {
                account_type: GovernanceAccountType::AccountGovernance,
                realm: req.realm_address,
                vote_threshold: req.vote_threshold,
                token_threshold_to_create_proposal: req.token_threshold_to_create_proposal,
                min_instruction_hold_up_time: req.min_instruction_hold_up_time,
                governed_account: req.governed,
                max_voting_time: req.max_voting_time,
                proposal_count: 0,
            }),
        },
{
    check_governance(req, realm, &get_account_governance_address_seeds(&req.realm_address, &req.governed))?;
    Ok(
        AccountGovernance {
            account_type: GovernanceAccountType::AccountGovernance,
            realm: req.realm_address,
            vote_threshold: req.vote_threshold,
            token_threshold_to_create_proposal: req.token_threshold_to_create_proposal,
            min_instruction_hold_up_time: req.min_instruction_hold_up_time,
            governed_account: req.governed,
            max_voting_time: req.max_voting_time,
            proposal_count: 0,
        },
    )
}

/// Creates the governance over an upgradable program of a realm. The creator proves
/// authority over the program: the governance is its upgrade authority already, or the
/// current upgrade authority signs.
pub fn process_create_program_governance(
    req: &CreateGovernanceRequest,
    realm: &Realm,
    program_data_info: &AccountData,
    program_upgrade_authority_info: &AccountData,
) -> (r: Result<ProgramGovernance, GovernanceError>)
    ensures
        match create_governance_error(
            *req,
            realm,
            program_governance_seeds(req.realm_address@, req.governed@),
        ) {
            Some(e) => r matches Err(x) && x == e,
            None => match upgrade_authority_error(
                req.governance_address,
                req.governed,
                program_data_info,
                program_upgrade_authority_info,
            ) {
                Some(e) => r matches Err(x) && x == e,
                None => r matches Ok(g) && g == (ProgramGovernance {
                    account_type: GovernanceAccountType::ProgramGovernance,
                    vote_threshold: req.vote_threshold,
                    min_instruction_hold_up_time: req.min_instruction_hold_up_time,
                    governance_mint: realm.governance_mint,
                    council_mint: realm.council_mint,
                    program: req.governed,
                    max_voting_time: req.max_voting_time,
                    proposal_count: 0,
                }),
            },
        },
{
    check_governance(req, realm, &get_program_governance_address_seeds(&req.realm_address, &req.governed))?;
    assert_program_upgrade_authority(
        &req.governance_address,
        &req.governed,
        program_data_info,
        program_upgrade_authority_info,
    )?;
    Ok(
        ProgramGovernance {
            account_type: GovernanceAccountType::ProgramGovernance,
            vote_threshold: req.vote_threshold,
            min_instruction_hold_up_time: req.min_instruction_hold_up_time,
            governance_mint: realm.governance_mint,
            council_mint: realm.council_mint,
            program: req.governed,
            max_voting_time: req.max_voting_time,
            proposal_count: 0,
        },
    )
}

/// Delegates the vote authority of a voter record; the token owner must sign.
pub fn process_set_vote_authority(
    program_id: &Address,
    voter_record_address: &Address,
    governing_token_mint: &Address,
    governing_token_owner: &Address,
    owner_signed: bool,
    vote_authority: &Address,
    voter_record: &mut VoterRecord,
) -> (r: Result<(), GovernanceError>)
    ensures
        if !owner_signed {
            r == Err::<(), GovernanceError>(GovernanceError::VoterMustSign) && *final(voter_record)
                == *old(voter_record)
        } else if !derives_to(
            voter_record_seeds(old(voter_record).realm@, governing_token_mint@, governing_token_owner@),
            program_id@,
            voter_record_address@,
        ) {
            r == Err::<(), GovernanceError>(GovernanceError::InvalidVoterAccountAddress)
                && *final(voter_record) == *old(voter_record)
        } else if old(voter_record).account_type != GovernanceAccountType::VoterRecord
            || old(voter_record).token_owner@ != governing_token_owner@ {
            r == Err::<(), GovernanceError>(GovernanceError::InvalidAccountData) && *final(voter_record)
                == *old(voter_record)
        } else {
            r is Ok && *final(voter_record) == VoterRecord {
                vote_authority: *vote_authority,
                ..*old(voter_record)
            }
        },
{
    if !owner_signed {
        return Err(GovernanceError::VoterMustSign);
    }
    if authenticate(
        &get_vote_record_address_seeds(&voter_record.realm, governing_token_mint, governing_token_owner),
        program_id,
        voter_record_address,
    ).is_err() {
        return Err(GovernanceError::InvalidVoterAccountAddress);
    }
    if !voter_record.is_initialized() || voter_record.token_owner != *governing_token_owner {
        return Err(GovernanceError::InvalidAccountData);
    }
    voter_record.vote_authority = *vote_authority;
    Ok(())
}

} // verus!
