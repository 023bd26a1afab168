//! The voter weight add-in interface: a record of a voter's weight as an add-in program
//! computed it.

use vstd::prelude::*;
use crate::address::Address;
use crate::instruction::VoterWeightAccountType;

verus! {

/// Voter weight record of one token owner in a realm.
#[derive(Clone, Copy, Debug)]
pub struct VoterWeightRecord {
    /// VoterWeightRecord account type
    pub account_type: VoterWeightAccountType,
    /// The Realm the VoterWeightRecord belongs to
    pub realm: Address,
    /// The owner of the governing token and voter
    pub governing_token_owner: Address,
    /// Voter's weight
    pub voter_weight: u64,
    /// The unix timestamp the voter weight is calculated for
    pub voter_weight_at: i64,
    /// When the voting weight expires, if ever
    pub voter_weight_expiry: Option<i64>,
}

impl VoterWeightRecord {
    pub fn is_initialized(&self) -> (r: bool)
        ensures
            r == (self.account_type == VoterWeightAccountType::VoterWeightRecord),
    {
        self.account_type == VoterWeightAccountType::VoterWeightRecord
    }
}

/// The record that a deposit of `amount` creates: the owner's weight is the amount, as of
/// `now`, without expiry.
pub fn deposit_voter_weight_record(
    realm: &Address,
    governing_token_owner: &Address,
    amount: u64,
    now: i64,
) -> (r: VoterWeightRecord)
    ensures
        r == (VoterWeightRecord {
            account_type: VoterWeightAccountType::VoterWeightRecord,
            realm: *realm,
            governing_token_owner: *governing_token_owner,
            voter_weight: amount,
            voter_weight_at: now,
            voter_weight_expiry: None,
        }),
{
    VoterWeightRecord {
        account_type: VoterWeightAccountType::VoterWeightRecord,
        realm: *realm,
        governing_token_owner: *governing_token_owner,
        voter_weight: amount,
        voter_weight_at: now,
        voter_weight_expiry: None,
    }
}

} // verus!
