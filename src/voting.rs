//! Voting on a proposal: the tally, threshold tipping, the voting window and execution.

use vstd::prelude::*;
use crate::error::GovernanceError;
use crate::proposal::capability_error;
use crate::state::{AccountGovernance, Proposal, ProposalState, Vote, VoterRecord};
use crate::token::{assert_spl_token_owner_is_signer, AccountData};

verus! {

/// The running tally of a proposal's vote.
#[derive(Clone, Copy, Debug)]
pub struct VoteTally {
    /// Cumulative weight of Yes votes
    pub yes_weight: u64,
    /// Cumulative weight of No votes
    pub no_weight: u64,
    /// Total eligible governing-token weight, fixed when voting starts
    pub total_weight: u64,
    /// When voting started
    pub voting_at: u64,
    /// When the vote tipped to Succeeded or Defeated
    pub voting_completed_at: Option<u64>,
}

/// Whether the Yes weight reaches `threshold` percent of the eligible weight.
pub open spec fn spec_vote_tips(yes_weight: u64, threshold: u8, total_weight: u64) -> bool {
    yes_weight * 100 >= threshold * total_weight
}

/// Whether the voting window that opened at `voting_at` has elapsed at `now`.
pub open spec fn spec_window_elapsed(voting_at: u64, max_voting_time: u64, now: u64) -> bool {
    now > voting_at + max_voting_time
}

/// Whether the Yes weight reaches `threshold` percent of the eligible weight.
pub fn vote_tips(yes_weight: u64, threshold: u8, total_weight: u64) -> (r: bool)
    ensures
        r == spec_vote_tips(yes_weight, threshold, total_weight),
{
    let lhs: u128 = yes_weight as u128 * 100;
    assert((threshold as int) * (total_weight as int) <= 255 * 0xffff_ffff_ffff_ffff) by (nonlinear_arith)
        requires
            threshold <= 255,
            total_weight <= 0xffff_ffff_ffff_ffff,
    ;
    let rhs: u128 = threshold as u128 * total_weight as u128;
    lhs >= rhs
}

fn window_elapsed(voting_at: u64, max_voting_time: u64, now: u64) -> (r: bool)
    ensures
        r == spec_window_elapsed(voting_at, max_voting_time, now),
{
    now >= voting_at && now - voting_at > max_voting_time
}

/// The state a closed vote tips to.
pub open spec fn closed_state(tally: VoteTally, threshold: u8) -> ProposalState {
    if spec_vote_tips(tally.yes_weight, threshold, tally.total_weight) {
        ProposalState::Succeeded
    } else {
        ProposalState::Defeated
    }
}

/// Opens voting on a signed-off proposal on behalf of the holder of its admin token; the
/// eligible weight is fixed for the whole vote.
pub fn start_voting(
    proposal: &mut Proposal,
    admin_token_info: &AccountData,
    proposal_owner_info: &AccountData,
    total_weight: u64,
    now: u64,
) -> (r: Result<VoteTally, GovernanceError>)
    ensures
        match capability_error(admin_token_info, old(proposal).admin_mint, proposal_owner_info) {
            Some(e) => r matches Err(x) && x == e && *final(proposal) == *old(proposal),
            None => if old(proposal).state != ProposalState::Signing {
                r matches Err(x) && x == GovernanceError::InvalidStateForAction && *final(proposal)
                    == *old(proposal)
            } else {
                r matches Ok(t) && t == (VoteTally {
                    yes_weight: 0,
                    no_weight: 0,
                    total_weight,
                    voting_at: now,
                    voting_completed_at: None,
                }) && *final(proposal) == Proposal { state: ProposalState::Voting, ..*old(proposal) }
            },
        },
{
    assert_spl_token_owner_is_signer(admin_token_info, &proposal.admin_mint, proposal_owner_info)?;
    if proposal.state != ProposalState::Signing {
        return Err(GovernanceError::InvalidStateForAction);
    }
    proposal.state = ProposalState::Voting;
    Ok(VoteTally { yes_weight: 0, no_weight: 0, total_weight, voting_at: now, voting_completed_at: None })
}

/// A vote cast by the vote authority of a voter record.
#[derive(Clone, Copy, Debug)]
pub struct CastVoteRequest {
    /// Yes or No
    pub yes: bool,
    /// Whether the voter record's vote authority signed
    pub vote_authority_signed: bool,
    /// Whether a vote of this voter on this proposal is already recorded
    pub vote_record_exists: bool,
    /// The current time
    pub now: u64,
}

/// The error of a vote, or none where it is counted or closes the vote.
pub open spec fn cast_vote_error(
    req: CastVoteRequest,
    proposal: &Proposal,
    tally: VoteTally,
    record: VoterRecord,
    governance: AccountGovernance,
) -> Option<GovernanceError> {
    if proposal.state != ProposalState::Voting {
        Some(GovernanceError::InvalidStateForAction)
    } else if spec_window_elapsed(tally.voting_at, governance.max_voting_time, req.now) {
        None
    } else if !req.vote_authority_signed {
        Some(GovernanceError::VoterMustSign)
    } else if req.vote_record_exists {
        Some(GovernanceError::AccountAlreadyInitialized)
    } else if record.realm@ != governance.realm@ || record.token_type != proposal.governing_token_type {
        Some(GovernanceError::InvalidGoverningTokenMint)
    } else if record.active_votes_count == u8::MAX {
        Some(GovernanceError::ArithmeticOverflow)
    } else if req.yes && tally.yes_weight + record.token_deposit_amount > u64::MAX {
        Some(GovernanceError::ArithmeticOverflow)
    } else if !req.yes && tally.no_weight + record.token_deposit_amount > u64::MAX {
        Some(GovernanceError::ArithmeticOverflow)
    } else {
        None
    }
}

/// The tally after a counted vote.
pub open spec fn tally_after_vote(req: CastVoteRequest, tally: VoteTally, weight: u64) -> VoteTally {
    if req.yes {
        VoteTally { yes_weight: (tally.yes_weight + weight) as u64, ..tally }
    } else {
        VoteTally { no_weight: (tally.no_weight + weight) as u64, ..tally }
    }
}

/// Casts a vote with the voter's whole deposit as its weight. Within the voting window
/// the vote is counted in the tally and in the voter's active votes, and when the Yes
/// weight reaches the governance's threshold the proposal tips to Succeeded; the counted
/// vote is returned. Once the window has elapsed the vote is not counted: the proposal
/// tips to Succeeded or Defeated on the tally as it stands, and none is returned.
/// Nothing changes on failure.
pub fn cast_vote(
    req: &CastVoteRequest,
    proposal: &mut Proposal,
    tally: &mut VoteTally,
    governance: &AccountGovernance,
    voter_record: &mut VoterRecord,
) -> (r: Result<Option<Vote>, GovernanceError>)
    ensures
        match cast_vote_error(*req, old(proposal), *old(tally), *old(voter_record), *governance) {
            Some(e) => {
                &&& r matches Err(x) && x == e
                &&& *final(proposal) == *old(proposal)
                &&& *final(tally) == *old(tally)
                &&& *final(voter_record) == *old(voter_record)
            },
            None => if spec_window_elapsed(old(tally).voting_at, governance.max_voting_time, req.now) {
                &&& r == Ok::<Option<Vote>, GovernanceError>(None)
                &&& *final(voter_record) == *old(voter_record)
                &&& *final(tally) == VoteTally { voting_completed_at: Some(req.now), ..*old(tally) }
                &&& *final(proposal) == Proposal {
                    state: closed_state(*old(tally), governance.vote_threshold),
                    ..*old(proposal)
                }
            } else {
                let w = old(voter_record).token_deposit_amount;
                let t = tally_after_vote(*req, *old(tally), w);
                let tips = spec_vote_tips(t.yes_weight, governance.vote_threshold, t.total_weight);
                &&& r matches Ok(Some(v)) && v == (if req.yes {
                    Vote::Yes(w)
                } else {
                    Vote::No(w)
                })
                &&& *final(voter_record) == VoterRecord {
                    active_votes_count: (old(voter_record).active_votes_count + 1) as u8,
                    ..*old(voter_record)
                }
                &&& *final(tally) == (if tips {
                    VoteTally { voting_completed_at: Some(req.now), ..t }
                } else {
                    t
                })
                &&& *final(proposal) == (if tips {
                    Proposal { state: ProposalState::Succeeded, ..*old(proposal) }
                } else {
                    *old(proposal)
                })
            },
        },
{
    if proposal.state != ProposalState::Voting {
        return Err(GovernanceError::InvalidStateForAction);
    }
    if window_elapsed(tally.voting_at, governance.max_voting_time, req.now) {
        if vote_tips(tally.yes_weight, governance.vote_threshold, tally.total_weight) {
            proposal.state = ProposalState::Succeeded;
        } else {
            proposal.state = ProposalState::Defeated;
        }
        tally.voting_completed_at = Some(req.now);
        return Ok(None);
    }
    if !req.vote_authority_signed {
        return Err(GovernanceError::VoterMustSign);
    }
    if req.vote_record_exists {
        return Err(GovernanceError::AccountAlreadyInitialized);
    }
    if voter_record.realm != governance.realm || voter_record.token_type
        != proposal.governing_token_type {
        return Err(GovernanceError::InvalidGoverningTokenMint);
    }
    if voter_record.active_votes_count == u8::MAX {
        return Err(GovernanceError::ArithmeticOverflow);
    }
    let weight = voter_record.token_deposit_amount;
    let vote = if req.yes {
        match tally.yes_weight.checked_add(weight) {
            Some(y) => {
                tally.yes_weight = y;
            },
            None => {
                return Err(GovernanceError::ArithmeticOverflow);
            },
        }
        Vote::Yes(weight)
    } else {
        match tally.no_weight.checked_add(weight) {
            Some(n) => {
                tally.no_weight = n;
            },
            None => {
                return Err(GovernanceError::ArithmeticOverflow);
            },
        }
        Vote::No(weight)
    };
    voter_record.active_votes_count = voter_record.active_votes_count + 1;
    if vote_tips(tally.yes_weight, governance.vote_threshold, tally.total_weight) {
        proposal.state = ProposalState::Succeeded;
        tally.voting_completed_at = Some(req.now);
    }
    Ok(Some(vote))
}

/// Checks the tally of a voting proposal: it tips to Succeeded once the Yes weight
/// reaches the threshold, and to Defeated once the window has elapsed without that.
/// While the window is open and the threshold is not reached, the proposal stays Voting
/// and the check fails.
pub fn finalize_vote(
    proposal: &mut Proposal,
    tally: &mut VoteTally,
    governance: &AccountGovernance,
    now: u64,
) -> (r: Result<(), GovernanceError>)
    ensures
        if old(proposal).state == ProposalState::Voting && (spec_window_elapsed(
            old(tally).voting_at,
            governance.max_voting_time,
            now,
        ) || spec_vote_tips(old(tally).yes_weight, governance.vote_threshold, old(tally).total_weight)) {
            &&& r is Ok
            &&& *final(tally) == VoteTally { voting_completed_at: Some(now), ..*old(tally) }
            &&& *final(proposal) == Proposal {
                state: closed_state(*old(tally), governance.vote_threshold),
                ..*old(proposal)
            }
        } else {
            &&& r == Err::<(), GovernanceError>(GovernanceError::InvalidStateForAction)
            &&& *final(proposal) == *old(proposal)
            &&& *final(tally) == *old(tally)
        },
{
    if proposal.state != ProposalState::Voting {
        return Err(GovernanceError::InvalidStateForAction);
    }
    let tips = vote_tips(tally.yes_weight, governance.vote_threshold, tally.total_weight);
    if !tips && !window_elapsed(tally.voting_at, governance.max_voting_time, now) {
        return Err(GovernanceError::InvalidStateForAction);
    }
    if tips {
        proposal.state = ProposalState::Succeeded;
    } else {
        proposal.state = ProposalState::Defeated;
    }
    tally.voting_completed_at = Some(now);
    Ok(())
}

/// Withdraws a voter's vote. While the proposal is voting the vote leaves the tally; in
/// any state it stops counting among the voter's active votes.
pub fn relinquish_vote(
    proposal: &Proposal,
    tally: &mut VoteTally,
    voter_record: &mut VoterRecord,
    vote: Vote,
) -> (r: Result<(), GovernanceError>)
    ensures
        if old(voter_record).active_votes_count == 0 {
            r == Err::<(), GovernanceError>(GovernanceError::InvalidStateForAction)
                && *final(tally) == *old(tally) && *final(voter_record) == *old(voter_record)
        } else if proposal.state == ProposalState::Voting && (match vote {
            Vote::Yes(w) => w > old(tally).yes_weight,
            Vote::No(w) => w > old(tally).no_weight,
        }) {
            r == Err::<(), GovernanceError>(GovernanceError::ArithmeticOverflow)
                && *final(tally) == *old(tally) && *final(voter_record) == *old(voter_record)
        } else {
            &&& r is Ok
            &&& *final(voter_record) == VoterRecord {
                active_votes_count: (old(voter_record).active_votes_count - 1) as u8,
                ..*old(voter_record)
            }
            &&& *final(tally) == if proposal.state != ProposalState::Voting {
                *old(tally)
            } else {
                match vote {
                    Vote::Yes(w) => VoteTally { yes_weight: (old(tally).yes_weight - w) as u64, ..*old(tally) },
                    Vote::No(w) => VoteTally { no_weight: (old(tally).no_weight - w) as u64, ..*old(tally) },
                }
            }
        },
{
    if voter_record.active_votes_count == 0 {
        return Err(GovernanceError::InvalidStateForAction);
    }
    if proposal.state == ProposalState::Voting {
        match vote {
            Vote::Yes(w) => {
                if w > tally.yes_weight {
                    return Err(GovernanceError::ArithmeticOverflow);
                }
                tally.yes_weight = tally.yes_weight - w;
            },
            Vote::No(w) => {
                if w > tally.no_weight {
                    return Err(GovernanceError::ArithmeticOverflow);
                }
                tally.no_weight = tally.no_weight - w;
            },
        }
    }
    voter_record.active_votes_count = voter_record.active_votes_count - 1;
    Ok(())
}

/// Whether the hold-up time after the vote has passed at `now`.
pub open spec fn spec_hold_up_passed(tally: VoteTally, hold_up: u64, now: u64) -> bool {
    tally.voting_completed_at matches Some(t) && now >= t + hold_up
}

/// The state after an execution step; `remaining_instructions` counts the proposal's
/// instructions not yet executed before the step.
pub open spec fn executed_state(state: ProposalState, remaining_instructions: u32) -> ProposalState {
    if state == ProposalState::Executing && remaining_instructions == 0 {
        ProposalState::Completed
    } else {
        ProposalState::Executing
    }
}

/// One execution step of a succeeded proposal, no earlier than the governance's hold-up
/// time after the vote tipped. A Succeeded proposal always moves to Executing, running its
/// first instruction if it has one. An Executing proposal runs its next instruction and
/// stays Executing, or, with no instruction left, moves to Completed.
pub fn execute_instruction(
    proposal: &mut Proposal,
    tally: &VoteTally,
    governance: &AccountGovernance,
    remaining_instructions: u32,
    now: u64,
) -> (r: Result<(), GovernanceError>)
    ensures
        if (old(proposal).state == ProposalState::Succeeded || old(proposal).state
            == ProposalState::Executing) && spec_hold_up_passed(
            *tally,
            governance.min_instruction_hold_up_time,
            now,
        ) {
            r is Ok && *final(proposal) == Proposal {
                state: executed_state(old(proposal).state, remaining_instructions),
                ..*old(proposal)
            }
        } else {
            r == Err::<(), GovernanceError>(GovernanceError::InvalidStateForAction) && *final(proposal)
                == *old(proposal)
        },
{
    if proposal.state != ProposalState::Succeeded && proposal.state != ProposalState::Executing {
        return Err(GovernanceError::InvalidStateForAction);
    }
    let passed = match tally.voting_completed_at {
        Some(t) => now >= t && now - t >= governance.min_instruction_hold_up_time,
        None => false,
    };
    if !passed {
        return Err(GovernanceError::InvalidStateForAction);
    }
    if proposal.state == ProposalState::Executing && remaining_instructions == 0 {
        proposal.state = ProposalState::Completed;
    } else {
        proposal.state = ProposalState::Executing;
    }
    Ok(())
}

/// Every state change that an execution step makes is Succeeded to Executing or
/// Executing to Completed: no state is skipped.
pub proof fn lemma_execution_skips_no_state(state: ProposalState, remaining_instructions: u32)
    requires
        state == ProposalState::Succeeded || state == ProposalState::Executing,
        executed_state(state, remaining_instructions) != state,
    ensures
        (state == ProposalState::Succeeded && executed_state(state, remaining_instructions)
            == ProposalState::Executing) || (state == ProposalState::Executing && executed_state(
            state,
            remaining_instructions,
        ) == ProposalState::Completed),
{
}

} // verus!
