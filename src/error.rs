//! Errors returned by the governance core.

use vstd::prelude::*;

verus! {

/// The typed failures of every governance operation.
#[derive(Clone, Copy, Debug, PartialEq, Eq, Structural)]
pub enum GovernanceError {
    /// A supplied account is not at the address that its seeds derive.
    InvalidSeeds,
    /// The voter record account is not at the address derived for its (realm, mint, owner).
    InvalidVoterAccountAddress,
    /// An account's data does not hold the expected kind of record.
    InvalidAccountData,
    /// The mint is neither the realm's community mint nor its council mint.
    InvalidGoverningTokenMint,
    /// A token account does not belong to the token program.
    InvalidTokenAccountOwnerError,
    /// The capability holder did not sign, or holds no capability token.
    TokenOwnerMustSign,
    /// The token owner did not sign the withdrawal.
    VoterMustSign,
    /// A token account holds fewer tokens than the requested move.
    InsufficientFunds,
    /// A counter or balance would leave its range.
    ArithmeticOverflow,
    /// Tokens cannot be withdrawn while the owner has votes in progress.
    CannotWithdrawGoverningTokensWhenActiveVotesExist,
    /// The withdrawal asks for more than was deposited.
    CannotWithdrawMoreGoverningTokensThenDeposited,
    /// The account holds no record yet.
    UninitializedAccount,
    /// An entity already exists at the proposal's address.
    ProposalAlreadyExists,
    /// An entity already exists at the address to be created.
    AccountAlreadyInitialized,
    /// The proposal has left the states in which it can be cancelled.
    ProposalCannotBeCancelled,
    /// The proposal is not in a state that permits the requested action.
    InvalidStateForAction,
    /// The vote threshold is not a percentage.
    InvalidVoteThreshold,
    /// The program data account does not belong to the upgradeable loader.
    IncorrectProgramId,
    /// The program data account is not the one derived for the program.
    InvalidProgramDataAccountKey,
    /// The program data account's bytes do not decode.
    InvalidProgramDataAccountData,
    /// The supplied upgrade authority is not the program's upgrade authority.
    InvalidUpgradeAuthority,
    /// The program's upgrade authority did not sign.
    UpgradeAuthorityMustSign,
    /// The program has no upgrade authority.
    ProgramNotUpgradable,
}

} // verus!
