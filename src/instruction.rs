//! Commands accepted by the governance programs and their companion programs.

use vstd::prelude::*;

verus! {

/// Instructions of the associated token account program.
#[derive(Clone, Copy, Debug, PartialEq, Eq, Structural)]
pub enum AssociatedTokenAccountInstruction {
    /// Creates an associated token account for the given wallet address and token mint
    CreateAssociatedTokenAccount,
    /// Mints tokens to an associated token account, creating it where it does not exist
    MintTo {
        /// Amount to mint
        amount: u64,
    },
}

/// Instructions of the governance chat program.
#[derive(Clone, Copy, Debug, PartialEq, Eq, Structural)]
pub enum GovernanceChatInstruction {
    /// Post message
    PostMessage,
}

/// Instructions of the governance stake pool program.
#[derive(Clone, Copy, Debug, PartialEq, Eq, Structural)]
pub enum GovernanceStakePoolInstruction {
    /// Deposit instruction
    Deposit,
}

/// Instructions of a voter weight add-in program.
#[derive(Clone, Copy, Debug, PartialEq, Eq, Structural)]
pub enum VoterWeightAddinInstruction {
    /// Revises voter weight providing up to date voter weight
    Revise {
        /// The time offset (in seconds) into the future for which the weight is revised
        time_offset: u64,
    },
    /// Deposits given amount
    Deposit {
        /// The deposit amount
        amount: u64,
    },
}

/// The voter weight instruction that the governance program sends to an add-in.
#[derive(Clone, Copy, Debug, PartialEq, Eq, Structural)]
pub enum VoterWeightInstruction {
    /// Revises voter weight providing up to date voter weight
    Revise {
        /// The time offset (in seconds) into the future for which the weight is revised
        time_offset: u64,
    },
}

/// The kind of record a voter weight account holds.
#[derive(Clone, Copy, Debug, PartialEq, Eq, Structural)]
pub enum VoterWeightAccountType {
    /// Default uninitialized account state
    Uninitialized,
    /// Voter Weight Record
    VoterWeightRecord,
}

} // verus!
