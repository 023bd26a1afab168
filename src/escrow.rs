//! The governing-token escrow: deposits move tokens from an owner's account into the
//! realm's holding account and credit the owner's voter record; withdrawals undo that.

use vstd::prelude::*;
use crate::address::{
    authenticate, derives_to, get_governing_token_holding_address_seeds, get_realm_address_seeds,
    get_vote_record_address_seeds, holding_seeds, realm_seeds, voter_record_seeds, Address,
};
use crate::error::GovernanceError;
use crate::state::{GovernanceAccountType, GoverningTokenType, Realm, VoterRecord};
use crate::token::TokenAccount;

verus! {

/// A deposit of governing tokens into a realm.
#[derive(Clone, Copy, Debug)]
pub struct DepositRequest {
    pub program_id: Address,
    pub realm_address: Address,
    pub governing_token_mint: Address,
    pub governing_token_owner: Address,
    pub voter_record_address: Address,
    pub amount: u64,
}

/// A withdrawal of governing tokens from a realm.
#[derive(Clone, Copy, Debug)]
pub struct WithdrawRequest {
    pub program_id: Address,
    pub realm_address: Address,
    pub governing_token_mint: Address,
    pub governing_token_owner: Address,
    pub owner_signed: bool,
    pub voter_record_address: Address,
    pub amount: u64,
}

/// Whether a stored voter record is the ledger of (realm, token type, owner).
pub open spec fn record_matches(
    r: VoterRecord,
    realm: Address,
    token_type: GoverningTokenType,
    owner: Address,
) -> bool {
    &&& r.account_type == GovernanceAccountType::VoterRecord
    &&& r.realm@ == realm@
    &&& r.token_type == token_type
    &&& r.token_owner@ == owner@
}

/// The checks that a realm and its escrow account pass before any token moves.
pub open spec fn escrow_error(
    program_id: Address,
    realm_address: Address,
    realm: &Realm,
    mint: Address,
    holding: TokenAccount,
) -> Option<GovernanceError> {
    if !realm.spec_is_initialized() {
        Some(GovernanceError::InvalidAccountData)
    } else if !derives_to(realm_seeds(realm.name@), program_id@, realm_address@) {
        Some(GovernanceError::InvalidSeeds)
    } else if realm.spec_token_type_of(mint) is None {
        Some(GovernanceError::InvalidGoverningTokenMint)
    } else if !derives_to(holding_seeds(realm_address@, mint@), program_id@, holding.address@) {
        Some(GovernanceError::InvalidSeeds)
    } else if holding.mint@ != mint@ {
        Some(GovernanceError::InvalidGoverningTokenMint)
    } else {
        None
    }
}

/// The error of a deposit, or none where it succeeds.
pub open spec fn deposit_error(
    req: DepositRequest,
    realm: &Realm,
    source: TokenAccount,
    holding: TokenAccount,
    record: Option<VoterRecord>,
) -> Option<GovernanceError> {
    let e = escrow_error(req.program_id, req.realm_address, realm, req.governing_token_mint, holding);
    if e is Some {
        e
    } else if source.mint@ != req.governing_token_mint@ {
        Some(GovernanceError::InvalidGoverningTokenMint)
    } else if source.owner@ != req.governing_token_owner@ {
        Some(GovernanceError::TokenOwnerMustSign)
    } else if source.amount < req.amount {
        Some(GovernanceError::InsufficientFunds)
    } else if holding.amount + req.amount > u64::MAX {
        Some(GovernanceError::ArithmeticOverflow)
    } else if !derives_to(
        voter_record_seeds(req.realm_address@, req.governing_token_mint@, req.governing_token_owner@),
        req.program_id@,
        req.voter_record_address@,
    ) {
        Some(GovernanceError::InvalidVoterAccountAddress)
    } else {
        match record {
            Some(r) => if !record_matches(
                r,
                req.realm_address,
                realm.spec_token_type_of(req.governing_token_mint).unwrap(),
                req.governing_token_owner,
            ) {
                Some(GovernanceError::InvalidAccountData)
            } else if r.token_deposit_amount + req.amount > u64::MAX {
                Some(GovernanceError::ArithmeticOverflow)
            } else {
                None
            },
            None => None,
        }
    }
}

/// The voter record after a successful deposit.
pub open spec fn deposited_record(req: DepositRequest, realm: &Realm, record: Option<VoterRecord>) -> VoterRecord {
    match record {
        Some(r) => VoterRecord { token_deposit_amount: (r.token_deposit_amount + req.amount) as u64, ..r },
        None => VoterRecord {
            account_type: GovernanceAccountType::VoterRecord,
            realm: req.realm_address,
            token_type: realm.spec_token_type_of(req.governing_token_mint).unwrap(),
            token_owner: req.governing_token_owner,
            token_deposit_amount: req.amount,
            vote_authority: req.governing_token_owner,
            active_votes_count: 0,
        },
    }
}

/// What a deposit leaves: the source account, the holding account and the voter record.
pub open spec fn deposit_outcome(
    req: DepositRequest,
    realm: &Realm,
    source: TokenAccount,
    holding: TokenAccount,
    record: Option<VoterRecord>,
) -> Result<(TokenAccount, TokenAccount, VoterRecord), GovernanceError> {
    match deposit_error(req, realm, source, holding, record) {
        Some(e) => Err(e),
        None => Ok(
            (
                TokenAccount { amount: (source.amount - req.amount) as u64, ..source },
                TokenAccount { amount: (holding.amount + req.amount) as u64, ..holding },
                deposited_record(req, realm, record),
            ),
        ),
    }
}

fn check_escrow(
    program_id: &Address,
    realm_address: &Address,
    realm: &Realm,
    mint: &Address,
    holding: &TokenAccount,
) -> (r: Result<GoverningTokenType, GovernanceError>)
    ensures
        match escrow_error(*program_id, *realm_address, realm, *mint, *holding) {
            Some(e) => r == Err::<GoverningTokenType, GovernanceError>(e),
            None => r == Ok::<GoverningTokenType, GovernanceError>(
                realm.spec_token_type_of(*mint).unwrap(),
            ),
        },
{
    if !realm.is_initialized() {
        return Err(GovernanceError::InvalidAccountData);
    }
    authenticate(&get_realm_address_seeds(&realm.name), program_id, realm_address)?;
    let token_type = match realm.token_type_of(mint) {
        Some(t) => t,
        None => {
            return Err(GovernanceError::InvalidGoverningTokenMint);
        },
    };
    authenticate(
        &get_governing_token_holding_address_seeds(realm_address, mint),
        program_id,
        &holding.address,
    )?;
    if holding.mint != *mint {
        return Err(GovernanceError::InvalidGoverningTokenMint);
    }
    Ok(token_type)
}

/// Deposits `amount` governing tokens of the owner into the realm's holding account and
/// credits them to the owner's voter record, which is created on the first deposit.
/// Either every account changes as the outcome says or none does.
pub fn process_deposit_governing_tokens(
    req: &DepositRequest,
    realm: &Realm,
    source: &mut TokenAccount,
    holding: &mut TokenAccount,
    voter_record: &mut Option<VoterRecord>,
) -> (r: Result<(), GovernanceError>)
    ensures
        match deposit_outcome(*req, realm, *old(source), *old(holding), *old(voter_record)) {
            Ok((s, h, v)) => {
                &&& r is Ok
                &&& *final(source) == s
                &&& *final(holding) == h
                &&& *final(voter_record) == Some(v)
            },
            Err(e) => {
                &&& r == Err::<(), GovernanceError>(e)
                &&& *final(source) == *old(source)
                &&& *final(holding) == *old(holding)
                &&& *final(voter_record) == *old(voter_record)
            },
        },
{
    let token_type = check_escrow(
        &req.program_id,
        &req.realm_address,
        realm,
        &req.governing_token_mint,
        holding,
    )?;
    if source.mint != req.governing_token_mint {
        return Err(GovernanceError::InvalidGoverningTokenMint);
    }
    if source.owner != req.governing_token_owner {
        return Err(GovernanceError::TokenOwnerMustSign);
    }
    if source.amount < req.amount {
        return Err(GovernanceError::InsufficientFunds);
    }
    let new_holding = match holding.amount.checked_add(req.amount) {
        Some(a) => a,
        None => {
            return Err(GovernanceError::ArithmeticOverflow);
        },
    };
    if authenticate(
        &get_vote_record_address_seeds(
            &req.realm_address,
            &req.governing_token_mint,
            &req.governing_token_owner,
        ),
        &req.program_id,
        &req.voter_record_address,
    ).is_err() {
        return Err(GovernanceError::InvalidVoterAccountAddress);
    }
    let new_record = match voter_record {
        Some(v) => {
            if !(v.is_initialized() && v.realm == req.realm_address && v.token_type == token_type
                && v.token_owner == req.governing_token_owner) {
                return Err(GovernanceError::InvalidAccountData);
            }
            let total = match v.token_deposit_amount.checked_add(req.amount) {
                Some(t) => t,
                None => {
                    return Err(GovernanceError::ArithmeticOverflow);
                },
            };
            VoterRecord { token_deposit_amount: total, ..*v }
        },
        None => VoterRecord {
            account_type: GovernanceAccountType::VoterRecord,
            realm: req.realm_address,
            token_type,
            token_owner: req.governing_token_owner,
            token_deposit_amount: req.amount,
            vote_authority: req.governing_token_owner,
            active_votes_count: 0,
        },
    };
    source.amount = source.amount - req.amount;
    holding.amount = new_holding;
    *voter_record = Some(new_record);
    Ok(())
}


/// The error of a withdrawal, or none where it succeeds.
pub open spec fn withdraw_error(
    req: WithdrawRequest,
    realm: &Realm,
    holding: TokenAccount,
    destination: TokenAccount,
    record: VoterRecord,
) -> Option<GovernanceError> {
    let e = escrow_error(req.program_id, req.realm_address, realm, req.governing_token_mint, holding);
    if e is Some {
        e
    } else if destination.mint@ != req.governing_token_mint@ {
        Some(GovernanceError::InvalidGoverningTokenMint)
    } else if !req.owner_signed {
        Some(GovernanceError::VoterMustSign)
    } else if !derives_to(
        voter_record_seeds(req.realm_address@, req.governing_token_mint@, req.governing_token_owner@),
        req.program_id@,
        req.voter_record_address@,
    ) {
        Some(GovernanceError::InvalidVoterAccountAddress)
    } else if !record_matches(
        record,
        req.realm_address,
        realm.spec_token_type_of(req.governing_token_mint).unwrap(),
        req.governing_token_owner,
    ) {
        Some(GovernanceError::InvalidAccountData)
    } else if record.active_votes_count > 0 {
        Some(GovernanceError::CannotWithdrawGoverningTokensWhenActiveVotesExist)
    } else if req.amount > record.token_deposit_amount {
        Some(GovernanceError::CannotWithdrawMoreGoverningTokensThenDeposited)
    } else if holding.amount < req.amount {
        Some(GovernanceError::InsufficientFunds)
    } else if destination.amount + req.amount > u64::MAX {
        Some(GovernanceError::ArithmeticOverflow)
    } else {
        None
    }
}

/// What a withdrawal leaves: the holding account, the destination account and the voter
/// record.
pub open spec fn withdraw_outcome(
    req: WithdrawRequest,
    realm: &Realm,
    holding: TokenAccount,
    destination: TokenAccount,
    record: VoterRecord,
) -> Result<(TokenAccount, TokenAccount, VoterRecord), GovernanceError> {
    match withdraw_error(req, realm, holding, destination, record) {
        Some(e) => Err(e),
        None => Ok(
            (
                TokenAccount { amount: (holding.amount - req.amount) as u64, ..holding },
                TokenAccount { amount: (destination.amount + req.amount) as u64, ..destination },
                VoterRecord {
                    token_deposit_amount: (record.token_deposit_amount - req.amount) as u64,
                    ..record
                },
            ),
        ),
    }
}

/// Withdraws `amount` governing tokens from the realm's holding account to the owner's
/// destination account and debits them from the owner's voter record. It fails while the
/// owner has active votes and when the amount exceeds the deposit. Either every account
/// changes as the outcome says or none does.
pub fn process_withdraw_governing_tokens(
    req: &WithdrawRequest,
    realm: &Realm,
    holding: &mut TokenAccount,
    destination: &mut TokenAccount,
    voter_record: &mut VoterRecord,
) -> (r: Result<(), GovernanceError>)
    ensures
        match withdraw_outcome(*req, realm, *old(holding), *old(destination), *old(voter_record)) {
            Ok((h, d, v)) => {
                &&& r is Ok
                &&& *final(holding) == h
                &&& *final(destination) == d
                &&& *final(voter_record) == v
            },
            Err(e) => {
                &&& r == Err::<(), GovernanceError>(e)
                &&& *final(holding) == *old(holding)
                &&& *final(destination) == *old(destination)
                &&& *final(voter_record) == *old(voter_record)
            },
        },
        req.amount > old(voter_record).token_deposit_amount ==> r is Err,
        old(voter_record).active_votes_count > 0 ==> r is Err,
{
    let token_type = check_escrow(
        &req.program_id,
        &req.realm_address,
        realm,
        &req.governing_token_mint,
        holding,
    )?;
    if destination.mint != req.governing_token_mint {
        return Err(GovernanceError::InvalidGoverningTokenMint);
    }
    if !req.owner_signed {
        return Err(GovernanceError::VoterMustSign);
    }
    if authenticate(
        &get_vote_record_address_seeds(
            &req.realm_address,
            &req.governing_token_mint,
            &req.governing_token_owner,
        ),
        &req.program_id,
        &req.voter_record_address,
    ).is_err() {
        return Err(GovernanceError::InvalidVoterAccountAddress);
    }
    if !(voter_record.is_initialized() && voter_record.realm == req.realm_address
        && voter_record.token_type == token_type && voter_record.token_owner
        == req.governing_token_owner) {
        return Err(GovernanceError::InvalidAccountData);
    }
    if voter_record.active_votes_count > 0 {
        return Err(GovernanceError::CannotWithdrawGoverningTokensWhenActiveVotesExist);
    }
    if req.amount > voter_record.token_deposit_amount {
        return Err(GovernanceError::CannotWithdrawMoreGoverningTokensThenDeposited);
    }
    if holding.amount < req.amount {
        return Err(GovernanceError::InsufficientFunds);
    }
    let new_destination = match destination.amount.checked_add(req.amount) {
        Some(a) => a,
        None => {
            return Err(GovernanceError::ArithmeticOverflow);
        },
    };
    holding.amount = holding.amount - req.amount;
    destination.amount = new_destination;
    voter_record.token_deposit_amount = voter_record.token_deposit_amount - req.amount;
    Ok(())
}

/// The amount a voter record credits; none counts as zero.
pub open spec fn ledger_balance(record: Option<VoterRecord>) -> int {
    match record {
        Some(r) => r.token_deposit_amount as int,
        None => 0,
    }
}

/// A deposit followed by a withdrawal of the same amount, back into the account the
/// tokens came from, succeeds when no vote is active and restores the source account,
/// the holding account and the owner's ledger balance exactly.
pub proof fn lemma_deposit_withdraw_round_trip(
    dreq: DepositRequest,
    wreq: WithdrawRequest,
    realm: &Realm,
    source: TokenAccount,
    holding: TokenAccount,
    record: Option<VoterRecord>,
)
    requires
        deposit_outcome(dreq, realm, source, holding, record) is Ok,
        record matches Some(v) ==> v.active_votes_count == 0,
        wreq.program_id == dreq.program_id,
        wreq.realm_address == dreq.realm_address,
        wreq.governing_token_mint == dreq.governing_token_mint,
        wreq.governing_token_owner == dreq.governing_token_owner,
        wreq.voter_record_address == dreq.voter_record_address,
        wreq.amount == dreq.amount,
        wreq.owner_signed,
    ensures
        ({
            let (s1, h1, v1) = deposit_outcome(dreq, realm, source, holding, record)->Ok_0;
            &&& withdraw_outcome(wreq, realm, h1, s1, v1) is Ok
            &&& withdraw_outcome(wreq, realm, h1, s1, v1)->Ok_0.0 == holding
            &&& withdraw_outcome(wreq, realm, h1, s1, v1)->Ok_0.1 == source
            &&& ledger_balance(Some(withdraw_outcome(wreq, realm, h1, s1, v1)->Ok_0.2))
                == ledger_balance(record)
            &&& (record matches Some(v) ==> withdraw_outcome(wreq, realm, h1, s1, v1)->Ok_0.2 == v)
        }),
{
}

/// A withdrawal of more than the deposit fails, with the over-withdrawal error wherever
/// the accounts authenticate and no vote is active, and leaves every account unchanged
/// (see the contract of `process_withdraw_governing_tokens`).
pub proof fn lemma_over_withdrawal_fails(
    req: WithdrawRequest,
    realm: &Realm,
    holding: TokenAccount,
    destination: TokenAccount,
    record: VoterRecord,
)
    requires
        req.amount > record.token_deposit_amount,
    ensures
        withdraw_outcome(req, realm, holding, destination, record) is Err,
        record.active_votes_count == 0 && withdraw_error(
            req,
            realm,
            holding,
            destination,
            VoterRecord { token_deposit_amount: req.amount, ..record },
        ) is None ==> withdraw_outcome(req, realm, holding, destination, record) == Err::<
            (TokenAccount, TokenAccount, VoterRecord),
            GovernanceError,
        >(GovernanceError::CannotWithdrawMoreGoverningTokensThenDeposited),
{
}

/// A withdrawal while the owner has active votes fails, with the active-votes error
/// wherever the accounts authenticate, and leaves every account unchanged (see the
/// contract of `process_withdraw_governing_tokens`).
pub proof fn lemma_withdrawal_with_active_votes_fails(
    req: WithdrawRequest,
    realm: &Realm,
    holding: TokenAccount,
    destination: TokenAccount,
    record: VoterRecord,
)
    requires
        record.active_votes_count > 0,
    ensures
        withdraw_outcome(req, realm, holding, destination, record) is Err,
        withdraw_error(
            req,
            realm,
            holding,
            destination,
            VoterRecord { active_votes_count: 0, ..record },
        ) is None ==> withdraw_outcome(req, realm, holding, destination, record) == Err::<
            (TokenAccount, TokenAccount, VoterRecord),
            GovernanceError,
        >(GovernanceError::CannotWithdrawGoverningTokensWhenActiveVotesExist),
{
}

} // verus!
