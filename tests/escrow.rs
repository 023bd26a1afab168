use spl_governance_core::address::{
    get_governing_token_holding_address, get_realm_address, get_vote_record_address, Address,
};
use spl_governance_core::error::GovernanceError;
use spl_governance_core::escrow::{
    process_deposit_governing_tokens, process_withdraw_governing_tokens, DepositRequest, WithdrawRequest,
};
use spl_governance_core::registry::{process_create_realm, CreateRealmRequest};
use spl_governance_core::state::{GoverningTokenType, Realm, VoterRecord};
use spl_governance_core::token::TokenAccount;

fn addr(b: u8) -> Address {
    Address { bytes: [b; 32] }
}

fn program_id() -> Address {
    addr(200)
}

struct Fixture {
    realm_address: Address,
    realm: Realm,
    holdings: Vec<TokenAccount>,
}

fn realm_fixture(name: &str, with_council: bool) -> Fixture {
    let pid = program_id();
    let name = name.to_string();
    let realm_address = get_realm_address(&name, &pid).unwrap();
    let community = addr(1);
    let council = addr(2);
    let community_holding = get_governing_token_holding_address(&realm_address, &community, &pid).unwrap();
    let council_holding = get_governing_token_holding_address(&realm_address, &council, &pid).unwrap();
    let req = CreateRealmRequest {
        program_id: pid,
        realm_address,
        realm_exists: false,
        community_mint: community,
        community_holding_address: community_holding,
        council: if with_council { Some((council, council_holding)) } else { None },
    };
    let realm = process_create_realm(&req, name).unwrap();
    let mut holdings = vec![TokenAccount { address: community_holding, mint: community, owner: realm_address, amount: 0 }];
    if with_council {
        holdings.push(TokenAccount { address: council_holding, mint: council, owner: realm_address, amount: 0 });
    }
    Fixture { realm_address, realm, holdings }
}

fn deposit_request(f: &Fixture, mint: Address, owner: Address, amount: u64) -> DepositRequest {
    DepositRequest {
        program_id: program_id(),
        realm_address: f.realm_address,
        governing_token_mint: mint,
        governing_token_owner: owner,
        voter_record_address: get_vote_record_address(&f.realm_address, &mint, &owner, &program_id()).unwrap(),
        amount,
    }
}

fn withdraw_request(d: &DepositRequest, amount: u64) -> WithdrawRequest {
    WithdrawRequest {
        program_id: d.program_id,
        realm_address: d.realm_address,
        governing_token_mint: d.governing_token_mint,
        governing_token_owner: d.governing_token_owner,
        owner_signed: true,
        voter_record_address: d.voter_record_address,
        amount,
    }
}

fn source_of(mint: Address, owner: Address, amount: u64) -> TokenAccount {
    TokenAccount { address: addr(77), mint, owner, amount }
}

#[test]
fn test_deposited_initial_governance_tokens() {
    let f = realm_fixture("realm one", false);
    let owner = addr(10);
    let req = deposit_request(&f, addr(1), owner, 100);
    let mut source = source_of(addr(1), owner, 1000);
    let mut holding = f.holdings[0];
    let mut record: Option<VoterRecord> = None;
    assert!(process_deposit_governing_tokens(&req, &f.realm, &mut source, &mut holding, &mut record).is_ok());
    let r = record.unwrap();
    assert_eq!(100, r.token_deposit_amount);
    assert!(r.token_owner == owner);
    assert!(r.vote_authority == owner);
    assert!(r.realm == f.realm_address);
    assert_eq!(0, r.active_votes_count);
    assert_eq!(GoverningTokenType::Community, r.token_type);
    assert_eq!(900, source.amount);
    assert_eq!(r.token_deposit_amount, holding.amount);
}

#[test]
fn test_deposited_initial_council_tokens() {
    let f = realm_fixture("realm two", true);
    let owner = addr(11);
    let req = deposit_request(&f, addr(2), owner, 10);
    let mut source = source_of(addr(2), owner, 10);
    let mut holding = f.holdings[1];
    let mut record: Option<VoterRecord> = None;
    assert!(process_deposit_governing_tokens(&req, &f.realm, &mut source, &mut holding, &mut record).is_ok());
    let r = record.unwrap();
    assert_eq!(10, r.token_deposit_amount);
    assert_eq!(GoverningTokenType::Council, r.token_type);
    assert_eq!(0, source.amount);
    assert_eq!(10, holding.amount);
}

#[test]
fn test_deposited_subsequent_governance_tokens() {
    let f = realm_fixture("realm three", false);
    let owner = addr(12);
    let mut source = source_of(addr(1), owner, 1000);
    let mut holding = f.holdings[0];
    let mut record: Option<VoterRecord> = None;
    let first = deposit_request(&f, addr(1), owner, 100);
    process_deposit_governing_tokens(&first, &f.realm, &mut source, &mut holding, &mut record).unwrap();
    let second = deposit_request(&f, addr(1), owner, 50);
    process_deposit_governing_tokens(&second, &f.realm, &mut source, &mut holding, &mut record).unwrap();
    assert_eq!(150, record.unwrap().token_deposit_amount);
    assert_eq!(150, holding.amount);
}

#[test]
fn test_deposited_subsequent_council_tokens() {
    let f = realm_fixture("realm four", true);
    let owner = addr(13);
    let mut source = source_of(addr(2), owner, 20);
    let mut holding = f.holdings[1];
    let mut record: Option<VoterRecord> = None;
    process_deposit_governing_tokens(&deposit_request(&f, addr(2), owner, 5), &f.realm, &mut source, &mut holding, &mut record).unwrap();
    process_deposit_governing_tokens(&deposit_request(&f, addr(2), owner, 7), &f.realm, &mut source, &mut holding, &mut record).unwrap();
    assert_eq!(12, record.unwrap().token_deposit_amount);
    assert_eq!(12, holding.amount);
    assert_eq!(8, source.amount);
}

#[test]
fn test_withdraw_governance_tokens() {
    let f = realm_fixture("realm five", false);
    let owner = addr(14);
    let req = deposit_request(&f, addr(1), owner, 300);
    let mut source = source_of(addr(1), owner, 300);
    let mut holding = f.holdings[0];
    let mut record: Option<VoterRecord> = None;
    process_deposit_governing_tokens(&req, &f.realm, &mut source, &mut holding, &mut record).unwrap();
    let mut r = record.unwrap();
    process_withdraw_governing_tokens(&withdraw_request(&req, 300), &f.realm, &mut holding, &mut source, &mut r).unwrap();
    assert_eq!(0, r.token_deposit_amount);
    assert_eq!(0, holding.amount);
    assert_eq!(300, source.amount);
}

#[test]
fn test_withdraw_council_tokens() {
    let f = realm_fixture("realm six", true);
    let owner = addr(15);
    let req = deposit_request(&f, addr(2), owner, 9);
    let mut source = source_of(addr(2), owner, 9);
    let mut holding = f.holdings[1];
    let mut record: Option<VoterRecord> = None;
    process_deposit_governing_tokens(&req, &f.realm, &mut source, &mut holding, &mut record).unwrap();
    let mut r = record.unwrap();
    process_withdraw_governing_tokens(&withdraw_request(&req, 9), &f.realm, &mut holding, &mut source, &mut r).unwrap();
    assert_eq!(0, r.token_deposit_amount);
    assert_eq!(0, holding.amount);
    assert_eq!(9, source.amount);
}

#[test]
fn deposit_100_then_withdraw_40() {
    let f = realm_fixture("R", false);
    let owner = addr(16);
    let req = deposit_request(&f, addr(1), owner, 100);
    let mut source = source_of(addr(1), owner, 500);
    let mut holding = f.holdings[0];
    let mut record: Option<VoterRecord> = None;
    process_deposit_governing_tokens(&req, &f.realm, &mut source, &mut holding, &mut record).unwrap();
    assert_eq!(100, record.unwrap().token_deposit_amount);
    assert_eq!(100, holding.amount);
    assert_eq!(400, source.amount);
    let mut r = record.unwrap();
    process_withdraw_governing_tokens(&withdraw_request(&req, 40), &f.realm, &mut holding, &mut source, &mut r).unwrap();
    assert_eq!(60, r.token_deposit_amount);
    assert_eq!(60, holding.amount);
    assert_eq!(440, source.amount);
}

#[test]
fn deposit_then_withdraw_restores_balances() {
    let f = realm_fixture("round trip", false);
    let owner = addr(17);
    let req = deposit_request(&f, addr(1), owner, 250);
    let mut source = source_of(addr(1), owner, 1000);
    let mut holding = f.holdings[0];
    holding.amount = 30;
    let mut record: Option<VoterRecord> = None;
    process_deposit_governing_tokens(&req, &f.realm, &mut source, &mut holding, &mut record).unwrap();
    let mut r = record.unwrap();
    process_withdraw_governing_tokens(&withdraw_request(&req, 250), &f.realm, &mut holding, &mut source, &mut r).unwrap();
    assert_eq!(1000, source.amount);
    assert_eq!(30, holding.amount);
    assert_eq!(0, r.token_deposit_amount);
}

#[test]
fn over_withdrawal_fails_and_changes_nothing() {
    let f = realm_fixture("over", false);
    let owner = addr(18);
    let req = deposit_request(&f, addr(1), owner, 50);
    let mut source = source_of(addr(1), owner, 50);
    let mut holding = f.holdings[0];
    let mut record: Option<VoterRecord> = None;
    process_deposit_governing_tokens(&req, &f.realm, &mut source, &mut holding, &mut record).unwrap();
    let mut r = record.unwrap();
    let res = process_withdraw_governing_tokens(&withdraw_request(&req, 51), &f.realm, &mut holding, &mut source, &mut r);
    assert_eq!(Err(GovernanceError::CannotWithdrawMoreGoverningTokensThenDeposited), res);
    assert_eq!(50, r.token_deposit_amount);
    assert_eq!(50, holding.amount);
    assert_eq!(0, source.amount);
}

#[test]
fn withdrawal_with_active_votes_fails() {
    let f = realm_fixture("active", false);
    let owner = addr(19);
    let req = deposit_request(&f, addr(1), owner, 50);
    let mut source = source_of(addr(1), owner, 50);
    let mut holding = f.holdings[0];
    let mut record: Option<VoterRecord> = None;
    process_deposit_governing_tokens(&req, &f.realm, &mut source, &mut holding, &mut record).unwrap();
    let mut r = record.unwrap();
    r.active_votes_count = 1;
    let res = process_withdraw_governing_tokens(&withdraw_request(&req, 10), &f.realm, &mut holding, &mut source, &mut r);
    assert_eq!(Err(GovernanceError::CannotWithdrawGoverningTokensWhenActiveVotesExist), res);
    assert_eq!(50, r.token_deposit_amount);
    assert_eq!(50, holding.amount);
    assert_eq!(0, source.amount);
}

#[test]
fn deposit_of_foreign_mint_fails() {
    let f = realm_fixture("foreign", false);
    let owner = addr(20);
    let req = deposit_request(&f, addr(3), owner, 5);
    let mut source = source_of(addr(3), owner, 5);
    let mut holding = f.holdings[0];
    let mut record: Option<VoterRecord> = None;
    let res = process_deposit_governing_tokens(&req, &f.realm, &mut source, &mut holding, &mut record);
    assert_eq!(Err(GovernanceError::InvalidGoverningTokenMint), res);
    assert!(record.is_none());
    assert_eq!(5, source.amount);
}

#[test]
fn deposit_errors() {
    let f = realm_fixture("errors", false);
    let owner = addr(21);
    let mut holding = f.holdings[0];
    let mut record: Option<VoterRecord> = None;
    // more than the source holds
    let mut source = source_of(addr(1), owner, 5);
    let res = process_deposit_governing_tokens(&deposit_request(&f, addr(1), owner, 6), &f.realm, &mut source, &mut holding, &mut record);
    assert_eq!(Err(GovernanceError::InsufficientFunds), res);
    // source of another owner
    let mut other = source_of(addr(1), addr(99), 5);
    let res = process_deposit_governing_tokens(&deposit_request(&f, addr(1), owner, 1), &f.realm, &mut other, &mut holding, &mut record);
    assert_eq!(Err(GovernanceError::TokenOwnerMustSign), res);
    // voter record at a wrong address
    let mut req = deposit_request(&f, addr(1), owner, 1);
    req.voter_record_address = addr(5);
    let res = process_deposit_governing_tokens(&req, &f.realm, &mut source, &mut holding, &mut record);
    assert_eq!(Err(GovernanceError::InvalidVoterAccountAddress), res);
    // holding account at a wrong address
    let mut wrong_holding = holding;
    wrong_holding.address = addr(6);
    let res = process_deposit_governing_tokens(&deposit_request(&f, addr(1), owner, 1), &f.realm, &mut source, &mut wrong_holding, &mut record);
    assert_eq!(Err(GovernanceError::InvalidSeeds), res);
    // holding balance would overflow
    let mut full = holding;
    full.amount = u64::MAX;
    let res = process_deposit_governing_tokens(&deposit_request(&f, addr(1), owner, 1), &f.realm, &mut source, &mut full, &mut record);
    assert_eq!(Err(GovernanceError::ArithmeticOverflow), res);
    assert!(record.is_none());
}

#[test]
fn withdraw_requires_signature() {
    let f = realm_fixture("unsigned", false);
    let owner = addr(22);
    let req = deposit_request(&f, addr(1), owner, 5);
    let mut source = source_of(addr(1), owner, 5);
    let mut holding = f.holdings[0];
    let mut record: Option<VoterRecord> = None;
    process_deposit_governing_tokens(&req, &f.realm, &mut source, &mut holding, &mut record).unwrap();
    let mut r = record.unwrap();
    let mut w = withdraw_request(&req, 5);
    w.owner_signed = false;
    let res = process_withdraw_governing_tokens(&w, &f.realm, &mut holding, &mut source, &mut r);
    assert_eq!(Err(GovernanceError::VoterMustSign), res);
}
