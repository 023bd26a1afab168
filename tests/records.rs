use spl_governance_core::addin::deposit_voter_weight_record;
use spl_governance_core::address::{
    get_account_governance_address, get_governing_token_holding_address,
    get_program_governance_address, get_realm_address, get_vote_record_address, Address,
};
use spl_governance_core::error::GovernanceError;
use spl_governance_core::instruction::VoterWeightAccountType;
use spl_governance_core::loader::{assert_program_upgrade_authority, decode_upgrade_authority};
use spl_governance_core::registry::{
    process_create_account_governance, process_create_program_governance, process_create_realm, process_set_vote_authority,
    CreateGovernanceRequest, CreateRealmRequest,
};
use spl_governance_core::state::{GovernanceAccountType, GoverningTokenType, Realm, VoterRecord};
use spl_governance_core::timelock::{
    ConsensusAlgorithm, ExecutionType, TimelockConfig, TimelockSet, TimelockState,
    TimelockStateStatus, TimelockType,
};
use spl_governance_core::token::{
    get_amount_from_token_account, get_mint_from_token_account, token_account_from_data,
    AccountData, TokenAccountState,
};

fn addr(b: u8) -> Address {
    Address { bytes: [b; 32] }
}

fn program_id() -> Address {
    addr(200)
}

fn loader_id() -> Address {
    Address { bytes: solana_program::bpf_loader_upgradeable::id().to_bytes() }
}

fn token_program() -> Address {
    Address { bytes: spl_token::id().to_bytes() }
}

fn realm(name: &str) -> (Address, Realm) {
    let name = name.to_string();
    let ra = get_realm_address(&name, &program_id()).unwrap();
    let holding = get_governing_token_holding_address(&ra, &addr(1), &program_id()).unwrap();
    let r = process_create_realm(
        &CreateRealmRequest {
            program_id: program_id(),
            realm_address: ra,
            realm_exists: false,
            community_mint: addr(1),
            community_holding_address: holding,
            council: None,
        },
        name,
    )
    .unwrap();
    (ra, r)
}

fn governance_request(ra: Address, ga: Address, governed: Address, threshold: u8) -> CreateGovernanceRequest {
    CreateGovernanceRequest {
        program_id: program_id(),
        realm_address: ra,
        governance_address: ga,
        governance_exists: false,
        governed,
        vote_threshold: threshold,
        min_instruction_hold_up_time: 5,
        max_voting_time: 50,
        token_threshold_to_create_proposal: 2,
    }
}

fn program_data(program: Address, authority: Option<Address>) -> AccountData {
    let key = solana_program::pubkey::Pubkey::find_program_address(
        &[&program.bytes],
        &solana_program::bpf_loader_upgradeable::id(),
    )
    .0;
    let mut data = vec![3u8, 0, 0, 0];
    data.extend_from_slice(&42u64.to_le_bytes());
    match authority {
        Some(a) => {
            data.push(1);
            data.extend_from_slice(&a.bytes);
        }
        None => data.push(0),
    }
    AccountData { key: Address { bytes: key.to_bytes() }, owner: loader_id(), is_signer: false, data }
}

fn account(key: Address, is_signer: bool) -> AccountData {
    AccountData { key, owner: addr(0), is_signer, data: vec![] }
}

#[test]
fn process_create_realm_test_created() {
    let name = "Realm".to_string();
    let ra = get_realm_address(&name, &program_id()).unwrap();
    let community_holding = get_governing_token_holding_address(&ra, &addr(1), &program_id()).unwrap();
    let council_holding = get_governing_token_holding_address(&ra, &addr(2), &program_id()).unwrap();
    let req = CreateRealmRequest {
        program_id: program_id(),
        realm_address: ra,
        realm_exists: false,
        community_mint: addr(1),
        community_holding_address: community_holding,
        council: Some((addr(2), council_holding)),
    };
    let r = process_create_realm(&req, name.clone()).unwrap();
    assert_eq!(GovernanceAccountType::Realm, r.account_type);
    assert_eq!("Realm", r.name);
    assert!(r.governance_mint == addr(1));
    assert!(r.council_mint.unwrap() == addr(2));
    assert!(r.governance_token_holding == community_holding);
    assert!(r.council_token_holding.unwrap() == council_holding);
    assert!(r.is_initialized());
    let mut existing = req;
    existing.realm_exists = true;
    assert_eq!(GovernanceError::AccountAlreadyInitialized, process_create_realm(&existing, name.clone()).unwrap_err());
    let mut wrong = req;
    wrong.council = Some((addr(2), addr(9)));
    assert_eq!(GovernanceError::InvalidSeeds, process_create_realm(&wrong, name.clone()).unwrap_err());
    assert_eq!(GovernanceError::InvalidSeeds, process_create_realm(&req, "Other".to_string()).unwrap_err());
}

#[test]
fn account_governance_created() {
    let (ra, r) = realm("Realm");
    let ga = get_account_governance_address(&ra, &addr(50), &program_id()).unwrap();
    let g = process_create_account_governance(&governance_request(ra, ga, addr(50), 60), &r).unwrap();
    assert_eq!(GovernanceAccountType::AccountGovernance, g.account_type);
    assert!(g.realm == ra);
    assert!(g.governed_account == addr(50));
    assert_eq!(60, g.vote_threshold);
    assert_eq!(5, g.min_instruction_hold_up_time);
    assert_eq!(50, g.max_voting_time);
    assert_eq!(2, g.token_threshold_to_create_proposal);
    assert_eq!(0, g.proposal_count);
    assert_eq!(
        GovernanceError::InvalidVoteThreshold,
        process_create_account_governance(&governance_request(ra, ga, addr(50), 101), &r).unwrap_err()
    );
    assert_eq!(
        GovernanceError::InvalidSeeds,
        process_create_account_governance(&governance_request(ra, ga, addr(51), 60), &r).unwrap_err()
    );
}

#[test]
fn process_create_program_governance_test_created() {
    let (ra, r) = realm("Realm");
    let program = addr(70);
    let ga = get_program_governance_address(&ra, &program, &program_id()).unwrap();
    let authority = addr(71);
    let g = process_create_program_governance(
        &governance_request(ra, ga, program, 60),
        &r,
        &program_data(program, Some(authority)),
        &account(authority, true),
    )
    .unwrap();
    assert_eq!(GovernanceAccountType::ProgramGovernance, g.account_type);
    assert!(g.program == program);
    assert!(g.governance_mint == addr(1));
    assert!(g.council_mint.is_none());
    assert_eq!(60, g.vote_threshold);
    assert_eq!(0, g.proposal_count);
}

#[test]
fn upgrade_authority_checks() {
    let program = addr(70);
    let expected = addr(80);
    let authority = addr(71);
    // the governance is already the upgrade authority: no signature needed
    assert_eq!(Ok(()), assert_program_upgrade_authority(&expected, &program, &program_data(program, Some(expected)), &account(authority, false)));
    assert_eq!(Ok(()), assert_program_upgrade_authority(&expected, &program, &program_data(program, Some(authority)), &account(authority, true)));
    assert_eq!(
        Err(GovernanceError::UpgradeAuthorityMustSign),
        assert_program_upgrade_authority(&expected, &program, &program_data(program, Some(authority)), &account(authority, false))
    );
    assert_eq!(
        Err(GovernanceError::InvalidUpgradeAuthority),
        assert_program_upgrade_authority(&expected, &program, &program_data(program, Some(authority)), &account(addr(72), true))
    );
    assert_eq!(
        Err(GovernanceError::ProgramNotUpgradable),
        assert_program_upgrade_authority(&expected, &program, &program_data(program, None), &account(authority, true))
    );
    let mut foreign = program_data(program, Some(authority));
    foreign.owner = addr(3);
    assert_eq!(Err(GovernanceError::IncorrectProgramId), assert_program_upgrade_authority(&expected, &program, &foreign, &account(authority, true)));
    assert_eq!(
        Err(GovernanceError::InvalidProgramDataAccountKey),
        assert_program_upgrade_authority(&expected, &addr(74), &program_data(program, Some(authority)), &account(authority, true))
    );
    let mut truncated = program_data(program, Some(authority));
    truncated.data.truncate(20);
    assert_eq!(Err(GovernanceError::InvalidProgramDataAccountData), assert_program_upgrade_authority(&expected, &program, &truncated, &account(authority, true)));
}

#[test]
fn loader_states_decode() {
    assert_eq!(Ok(None), decode_upgrade_authority(&vec![0, 0, 0, 0]).map(|a| a.map(|x| x.bytes)));
    assert_eq!(Ok(None), decode_upgrade_authority(&vec![1, 0, 0, 0, 0]).map(|a| a.map(|x| x.bytes)));
    assert_eq!(Ok(None), decode_upgrade_authority(&[vec![2, 0, 0, 0], vec![5; 32]].concat()).map(|a| a.map(|x| x.bytes)));
    let mut pd = vec![3u8, 0, 0, 0, 1, 0, 0, 0, 0, 0, 0, 0, 1];
    pd.extend_from_slice(&[9u8; 32]);
    assert_eq!(Ok(Some([9u8; 32])), decode_upgrade_authority(&pd).map(|a| a.map(|x| x.bytes)));
    assert!(decode_upgrade_authority(&vec![4, 0, 0, 0]).is_err());
    assert!(decode_upgrade_authority(&vec![3, 0, 0, 0, 1, 0, 0, 0, 0, 0, 0, 0, 2]).is_err());
    assert!(decode_upgrade_authority(&vec![0, 0, 0]).is_err());
}

#[test]
fn vote_authority_is_delegated() {
    let (ra, _) = realm("Realm");
    let owner = addr(20);
    let va = get_vote_record_address(&ra, &addr(1), &owner, &program_id()).unwrap();
    let mut rec = VoterRecord {
        account_type: GovernanceAccountType::VoterRecord,
        realm: ra,
        token_type: GoverningTokenType::Community,
        token_owner: owner,
        token_deposit_amount: 10,
        vote_authority: owner,
        active_votes_count: 0,
    };
    assert_eq!(Err(GovernanceError::VoterMustSign), process_set_vote_authority(&program_id(), &va, &addr(1), &owner, false, &addr(21), &mut rec));
    assert_eq!(Err(GovernanceError::InvalidVoterAccountAddress), process_set_vote_authority(&program_id(), &addr(5), &addr(1), &owner, true, &addr(21), &mut rec));
    assert_eq!(Err(GovernanceError::InvalidAccountData), process_set_vote_authority(&program_id(), &get_vote_record_address(&ra, &addr(1), &addr(22), &program_id()).unwrap(), &addr(1), &addr(22), true, &addr(21), &mut rec));
    assert!(rec.vote_authority == owner);
    process_set_vote_authority(&program_id(), &va, &addr(1), &owner, true, &addr(21), &mut rec).unwrap();
    assert!(rec.vote_authority == addr(21));
}

fn token_data(mint: Address, owner: Address, amount: u64, state: u8) -> Vec<u8> {
    let mut data = vec![0u8; 165];
    data[0..32].copy_from_slice(&mint.bytes);
    data[32..64].copy_from_slice(&owner.bytes);
    data[64..72].copy_from_slice(&amount.to_le_bytes());
    data[108] = state;
    data
}

#[test]
fn token_account_reads() {
    let data = token_data(addr(4), addr(5), 0x0102_0304_0506_0708, 1);
    let t = token_account_from_data(&data).unwrap();
    assert!(t.mint == addr(4));
    assert!(t.owner == addr(5));
    assert_eq!(0x0102_0304_0506_0708, t.amount);
    assert_eq!(TokenAccountState::Initialized, t.state);
    assert!(token_account_from_data(&token_data(addr(4), addr(5), 1, 3)).is_none());
    assert!(token_account_from_data(&data[..164]).is_none());
    let mut bad_tag = data.clone();
    bad_tag[72] = 2;
    assert!(token_account_from_data(&bad_tag).is_none());
    let info = AccountData { key: addr(6), owner: token_program(), is_signer: false, data: data.clone() };
    assert_eq!(Ok(0x0102_0304_0506_0708), get_amount_from_token_account(&info));
    assert!(get_mint_from_token_account(&info).unwrap() == addr(4));
    let foreign = AccountData { key: addr(6), owner: addr(7), is_signer: false, data };
    assert_eq!(Err(GovernanceError::InvalidTokenAccountOwnerError), get_amount_from_token_account(&foreign));
    let short = AccountData { key: addr(6), owner: token_program(), is_signer: false, data: vec![1; 40] };
    assert_eq!(Err(GovernanceError::InvalidAccountData), get_amount_from_token_account(&short));
}

fn timelock_set() -> TimelockSet {
    let mut txns = [addr(0); 10];
    for (i, t) in txns.iter_mut().enumerate() {
        *t = addr(100 + i as u8);
    }
    TimelockSet {
        version: 1,
        signatory_mint: addr(11),
        admin_mint: addr(12),
        voting_mint: addr(13),
        signatory_validation: addr(14),
        admin_validation: addr(15),
        voting_validation: addr(16),
        state: TimelockState {
            status: TimelockStateStatus::Voting,
            total_voting_tokens_minted: 123_456_789,
            timelock_transactions: txns,
        },
        config: TimelockConfig {
            consensus_algorithm: ConsensusAlgorithm::SuperMajority,
            execution_type: ExecutionType::AnyAboveVoteFinishSlot,
            timelock_type: TimelockType::CustomSingleSignerV1,
        },
    }
}

#[test]
fn timelock_set_round_trip() {
    let s = timelock_set();
    let bytes = s.to_bytes();
    assert_eq!(525, bytes.len());
    assert_eq!(525, TimelockSet::get_packed_len());
    assert_eq!(1, bytes[0]);
    assert_eq!(&[11u8; 32][..], &bytes[1..33]);
    assert_eq!(1, bytes[193]);
    assert_eq!(&123_456_789u64.to_le_bytes()[..], &bytes[194..202]);
    assert_eq!(&[109u8; 32][..], &bytes[490..522]);
    assert_eq!(&[1u8, 1, 0][..], &bytes[522..525]);
    let back = TimelockSet::unpack(&bytes).unwrap();
    assert_eq!(1, back.version);
    assert!(back.voting_validation == addr(16));
    assert_eq!(TimelockStateStatus::Voting, back.state.status);
    assert_eq!(123_456_789, back.state.total_voting_tokens_minted);
    assert!(back.state.timelock_transactions[3] == addr(103));
    assert_eq!(ConsensusAlgorithm::SuperMajority, back.config.consensus_algorithm);
    assert_eq!(ExecutionType::AnyAboveVoteFinishSlot, back.config.execution_type);
    assert_eq!(bytes, back.to_bytes());
}

#[test]
fn timelock_set_pack_and_refusals() {
    let s = timelock_set();
    let mut dst = vec![7u8; 525];
    TimelockSet::pack(s, &mut dst).unwrap();
    assert_eq!(s.to_bytes(), dst);
    let mut wrong = vec![7u8; 524];
    assert_eq!(Err(GovernanceError::InvalidAccountData), TimelockSet::pack(s, &mut wrong));
    assert_eq!(vec![7u8; 524], wrong);
    let mut longer = vec![7u8; 530];
    s.pack_into_slice(&mut longer);
    assert_eq!(&s.to_bytes()[..], &longer[..525]);
    assert_eq!(&[7u8; 5][..], &longer[525..]);
    for (at, value) in [(193usize, 3u8), (522, 3), (523, 2), (524, 1)] {
        let mut unknown = s.to_bytes();
        unknown[at] = value;
        assert_eq!(Err(GovernanceError::InvalidAccountData), TimelockSet::unpack(&unknown).map(|_| ()));
    }
    let mut bad = s.to_bytes();
    bad[0] = 2;
    assert_eq!(Err(GovernanceError::InvalidAccountData), TimelockSet::unpack(&bad).map(|_| ()));
    bad[0] = 0;
    assert_eq!(Err(GovernanceError::UninitializedAccount), TimelockSet::unpack(&bad).map(|_| ()));
    assert!(TimelockSet::unpack_unchecked(&bad).is_ok());
    assert_eq!(Err(GovernanceError::InvalidAccountData), TimelockSet::unpack_unchecked(&bad[..524]).map(|_| ()));
}

#[test]
fn voter_weight_record_from_deposit() {
    let r = deposit_voter_weight_record(&addr(1), &addr(2), 77, 1_600_000_000);
    assert_eq!(VoterWeightAccountType::VoterWeightRecord, r.account_type);
    assert!(r.realm == addr(1));
    assert!(r.governing_token_owner == addr(2));
    assert_eq!(77, r.voter_weight);
    assert_eq!(1_600_000_000, r.voter_weight_at);
    assert_eq!(None, r.voter_weight_expiry);
    assert!(r.is_initialized());
}
