//! The fixed-layout record of the first proposal design: a timelock set of 525 bytes.
//! Versions other than the current one and the uninitialized one are refused.

use vstd::prelude::*;
use vstd::bytes::{
    lemma_auto_spec_u64_to_from_le_bytes, spec_u64_from_le_bytes, spec_u64_to_le_bytes,
    u64_from_le_bytes, u64_to_le_bytes,
};
use crate::address::{read_address, Address};
use crate::error::GovernanceError;

verus! {

/// Version of the layout.
pub const TIMELOCK_SET_VERSION: u8 = 1;

/// Version byte of an account that holds no timelock set yet.
pub const UNINITIALIZED_VERSION: u8 = 0;

/// Length of the layout in bytes.
pub const TIMELOCK_SET_LEN: usize = 525;

/// Status of a timelock set.
#[derive(Clone, Copy, Debug, PartialEq, Eq, Structural)]
pub enum TimelockStateStatus {
    Draft,
    Voting,
    VoteComplete,
}

/// How votes are counted.
#[derive(Clone, Copy, Debug, PartialEq, Eq, Structural)]
pub enum ConsensusAlgorithm {
    Majority,
    SuperMajority,
    FullConsensus,
}

/// How transactions are executed.
#[derive(Clone, Copy, Debug, PartialEq, Eq, Structural)]
pub enum ExecutionType {
    AllOrNothing,
    AnyAboveVoteFinishSlot,
}

/// Kind of timelock.
#[derive(Clone, Copy, Debug, PartialEq, Eq, Structural)]
pub enum TimelockType {
    CustomSingleSignerV1,
}

/// Running state of a timelock set.
#[derive(Clone, Copy, Debug)]
pub struct TimelockState {
    pub status: TimelockStateStatus,
    pub total_voting_tokens_minted: u64,
    pub timelock_transactions: [Address; 10],
}

/// Configuration of a timelock set.
#[derive(Clone, Copy, Debug)]
pub struct TimelockConfig {
    pub consensus_algorithm: ConsensusAlgorithm,
    pub execution_type: ExecutionType,
    pub timelock_type: TimelockType,
}

/// Single instance of a timelock.
#[derive(Clone, Copy, Debug)]
pub struct TimelockSet {
    /// Version of the layout
    pub version: u8,
    /// Mint of the signatory tokens
    pub signatory_mint: Address,
    /// Mint of the admin token
    pub admin_mint: Address,
    /// Mint of the voting tokens
    pub voting_mint: Address,
    /// Validates signatory tokens in a round trip transfer
    pub signatory_validation: Address,
    /// Validates admin tokens in a round trip transfer
    pub admin_validation: Address,
    /// Validates voting tokens in a round trip transfer
    pub voting_validation: Address,
    /// Reserve state
    pub state: TimelockState,
    /// Configuration values
    pub config: TimelockConfig,
}

pub open spec fn status_byte(s: TimelockStateStatus) -> u8 {
    match s {
        TimelockStateStatus::Draft => 0,
        TimelockStateStatus::Voting => 1,
        TimelockStateStatus::VoteComplete => 2,
    }
}

pub open spec fn consensus_byte(c: ConsensusAlgorithm) -> u8 {
    match c {
        ConsensusAlgorithm::Majority => 0,
        ConsensusAlgorithm::SuperMajority => 1,
        ConsensusAlgorithm::FullConsensus => 2,
    }
}

pub open spec fn execution_byte(e: ExecutionType) -> u8 {
    match e {
        ExecutionType::AllOrNothing => 0,
        ExecutionType::AnyAboveVoteFinishSlot => 1,
    }
}

/// The status that a byte in 0..=2 stands for.
pub open spec fn status_of(b: u8) -> TimelockStateStatus {
    if b == 1 {
        TimelockStateStatus::Voting
    } else if b == 2 {
        TimelockStateStatus::VoteComplete
    } else {
        TimelockStateStatus::Draft
    }
}

/// The consensus algorithm that a byte in 0..=2 stands for.
pub open spec fn consensus_of(b: u8) -> ConsensusAlgorithm {
    if b == 1 {
        ConsensusAlgorithm::SuperMajority
    } else if b == 2 {
        ConsensusAlgorithm::FullConsensus
    } else {
        ConsensusAlgorithm::Majority
    }
}

/// The execution type that a byte in 0..=1 stands for.
pub open spec fn execution_of(b: u8) -> ExecutionType {
    if b == 1 {
        ExecutionType::AnyAboveVoteFinishSlot
    } else {
        ExecutionType::AllOrNothing
    }
}

/// The ten transaction addresses, one after the other.
pub open spec fn transactions_bytes(t: Seq<Address>) -> Seq<u8> {
    t[0]@ + t[1]@ + t[2]@ + t[3]@ + t[4]@ + t[5]@ + t[6]@ + t[7]@ + t[8]@ + t[9]@
}

/// The layout: version, six addresses, status, total voting tokens minted (little endian),
/// ten transaction addresses, consensus algorithm, execution type, timelock type.
pub open spec fn timelock_set_bytes(s: TimelockSet) -> Seq<u8> {
    seq![s.version] + s.signatory_mint@ + s.admin_mint@ + s.voting_mint@ + s.signatory_validation@
        + s.admin_validation@ + s.voting_validation@ + seq![status_byte(s.state.status)]
        + spec_u64_to_le_bytes(s.state.total_voting_tokens_minted) + transactions_bytes(
        s.state.timelock_transactions@,
    ) + seq![
        consensus_byte(s.config.consensus_algorithm),
        execution_byte(s.config.execution_type),
        0u8,
    ]
}

/// Whether `s` is what the first 525 bytes of `b` decode to.
pub open spec fn decodes_to(b: Seq<u8>, s: TimelockSet) -> bool {
    &&& b.len() >= 525
    &&& s.version == b[0]
    &&& s.signatory_mint@ == b.subrange(1, 33)
    &&& s.admin_mint@ == b.subrange(33, 65)
    &&& s.voting_mint@ == b.subrange(65, 97)
    &&& s.signatory_validation@ == b.subrange(97, 129)
    &&& s.admin_validation@ == b.subrange(129, 161)
    &&& s.voting_validation@ == b.subrange(161, 193)
    &&& s.state.status == status_of(b[193])
    &&& s.state.total_voting_tokens_minted == spec_u64_from_le_bytes(b.subrange(194, 202))
    &&& forall|i: int|
        0 <= i < 10 ==> #[trigger] s.state.timelock_transactions@[i]@ == b.subrange(
            202 + 32 * i,
            234 + 32 * i,
        )
    &&& s.config.consensus_algorithm == consensus_of(b[522])
    &&& s.config.execution_type == execution_of(b[523])
    &&& s.config.timelock_type == TimelockType::CustomSingleSignerV1
}

/// Whether a version byte is one that the layout accepts.
pub open spec fn version_ok(v: u8) -> bool {
    v == TIMELOCK_SET_VERSION || v == UNINITIALIZED_VERSION
}

/// Whether the first 525 bytes of `b` carry an accepted version and known status,
/// consensus, execution and timelock type bytes; anything else is refused.
pub open spec fn layout_ok(b: Seq<u8>) -> bool {
    &&& b.len() >= 525
    &&& version_ok(b[0])
    &&& b[193] <= 2
    &&& b[522] <= 2
    &&& b[523] <= 1
    &&& b[524] == 0
}

impl TimelockSet {
    pub open spec fn spec_is_initialized(&self) -> bool {
        self.version != UNINITIALIZED_VERSION
    }

    pub fn is_initialized(&self) -> (r: bool)
        ensures
            r == self.spec_is_initialized(),
    {
        self.version != UNINITIALIZED_VERSION
    }

    /// Length of the layout in bytes.
    pub fn get_packed_len() -> (r: usize)
        ensures
            r == 525,
    {
        TIMELOCK_SET_LEN
    }

    /// Decodes the first 525 bytes of `input`. A version other than the current one or
    /// the uninitialized one, and an unknown status, consensus, execution or timelock type
    /// byte, are refused.
    pub fn unpack_from_slice(input: &[u8]) -> (r: Result<TimelockSet, GovernanceError>)
        requires
            input@.len() >= 525,
        ensures
            layout_ok(input@) ==> (r matches Ok(s) && decodes_to(input@, s)),
            !layout_ok(input@) ==> r == Err::<TimelockSet, GovernanceError>(
                GovernanceError::InvalidAccountData,
            ),
    {
        let version = input[0];
        if version != TIMELOCK_SET_VERSION && version != UNINITIALIZED_VERSION {
            return Err(GovernanceError::InvalidAccountData);
        }
        let status = match input[193] {
            0 => TimelockStateStatus::Draft,
            1 => TimelockStateStatus::Voting,
            2 => TimelockStateStatus::VoteComplete,
            _ => {
                return Err(GovernanceError::InvalidAccountData);
            },
        };
        let consensus_algorithm = match input[522] {
            0 => ConsensusAlgorithm::Majority,
            1 => ConsensusAlgorithm::SuperMajority,
            2 => ConsensusAlgorithm::FullConsensus,
            _ => {
                return Err(GovernanceError::InvalidAccountData);
            },
        };
        let execution_type = match input[523] {
            0 => ExecutionType::AllOrNothing,
            1 => ExecutionType::AnyAboveVoteFinishSlot,
            _ => {
                return Err(GovernanceError::InvalidAccountData);
            },
        };
        if input[524] != 0 {
            return Err(GovernanceError::InvalidAccountData);
        }
        let timelock_transactions: [Address; 10] = [
            read_address(input, 202),
            read_address(input, 234),
            read_address(input, 266),
            read_address(input, 298),
            read_address(input, 330),
            read_address(input, 362),
            read_address(input, 394),
            read_address(input, 426),
            read_address(input, 458),
            read_address(input, 490),
        ];
        let s = TimelockSet {
            version,
            signatory_mint: read_address(input, 1),
            admin_mint: read_address(input, 33),
            voting_mint: read_address(input, 65),
            signatory_validation: read_address(input, 97),
            admin_validation: read_address(input, 129),
            voting_validation: read_address(input, 161),
            state: TimelockState {
                status,
                total_voting_tokens_minted: u64_from_le_bytes(slice_range(input, 194, 202)),
                timelock_transactions,
            },
            config: TimelockConfig {
                consensus_algorithm,
                execution_type,
                timelock_type: TimelockType::CustomSingleSignerV1,
            },
        };
        assert forall|i: int| 0 <= i < 10 implies #[trigger] s.state.timelock_transactions@[i]@
            == input@.subrange(202 + 32 * i, 234 + 32 * i) by {
            if i == 0 {} else if i == 1 {} else if i == 2 {} else if i == 3 {} else if i == 4 {}
            else if i == 5 {} else if i == 6 {} else if i == 7 {} else if i == 8 {} else {}
        }
        Ok(s)
    }

    /// Decodes a timelock set from exactly 525 bytes.
    pub fn unpack_unchecked(input: &[u8]) -> (r: Result<TimelockSet, GovernanceError>)
        ensures
            input@.len() == 525 && layout_ok(input@) ==> (r matches Ok(s) && decodes_to(input@, s)),
            !(input@.len() == 525 && layout_ok(input@)) ==> r == Err::<TimelockSet, GovernanceError>(
                GovernanceError::InvalidAccountData,
            ),
    {
        if input.len() != TIMELOCK_SET_LEN {
            return Err(GovernanceError::InvalidAccountData);
        }
        TimelockSet::unpack_from_slice(input)
    }

    /// Decodes an initialized timelock set from exactly 525 bytes.
    pub fn unpack(input: &[u8]) -> (r: Result<TimelockSet, GovernanceError>)
        ensures
            !(input@.len() == 525 && layout_ok(input@)) ==> r == Err::<TimelockSet, GovernanceError>(
                GovernanceError::InvalidAccountData,
            ),
            input@.len() == 525 && layout_ok(input@) && input@[0] == UNINITIALIZED_VERSION ==> r == Err::<
                TimelockSet,
                GovernanceError,
            >(GovernanceError::UninitializedAccount),
            input@.len() == 525 && layout_ok(input@) && input@[0] == TIMELOCK_SET_VERSION ==> (r matches Ok(s) && decodes_to(
                input@,
                s,
            )),
    {
        let value = TimelockSet::unpack_unchecked(input)?;
        if value.is_initialized() {
            Ok(value)
        } else {
            Err(GovernanceError::UninitializedAccount)
        }
    }

    /// Encodes the timelock set in its 525-byte layout.
    pub fn to_bytes(&self) -> (r: Vec<u8>)
        ensures
            r@ == timelock_set_bytes(*self),
            r@.len() == 525,
    {
        let mut out: Vec<u8> = Vec::new();
        out.push(self.version);
        push_address(&mut out, &self.signatory_mint);
        push_address(&mut out, &self.admin_mint);
        push_address(&mut out, &self.voting_mint);
        push_address(&mut out, &self.signatory_validation);
        push_address(&mut out, &self.admin_validation);
        push_address(&mut out, &self.voting_validation);
        out.push(
            match self.state.status {
                TimelockStateStatus::Draft => 0u8,
                TimelockStateStatus::Voting => 1u8,
                TimelockStateStatus::VoteComplete => 2u8,
            },
        );
        let mut total = u64_to_le_bytes(self.state.total_voting_tokens_minted);
        out.append(&mut total);
        let ghost head = out@;
        let mut i: usize = 0;
        while i < 10
            invariant
                0 <= i <= 10,
                out@ == head + transactions_prefix(self.state.timelock_transactions@, i as int),
            decreases 10 - i,
        {
            push_address(&mut out, &self.state.timelock_transactions[i]);
            assert(out@ =~= head + transactions_prefix(self.state.timelock_transactions@, i + 1));
            i = i + 1;
        }
        proof {
            lemma_transactions_prefix_full(self.state.timelock_transactions@);
        }
        out.push(
            match self.config.consensus_algorithm {
                ConsensusAlgorithm::Majority => 0u8,
                ConsensusAlgorithm::SuperMajority => 1u8,
                ConsensusAlgorithm::FullConsensus => 2u8,
            },
        );
        out.push(
            match self.config.execution_type {
                ExecutionType::AllOrNothing => 0u8,
                ExecutionType::AnyAboveVoteFinishSlot => 1u8,
            },
        );
        out.push(0u8);
        proof {
            lemma_auto_spec_u64_to_from_le_bytes();
            assert(out@ =~= timelock_set_bytes(*self));
        }
        out
    }

    /// Writes the layout into the first 525 bytes of `output`; the rest is kept.
    pub fn pack_into_slice(&self, output: &mut Vec<u8>)
        requires
            old(output)@.len() >= 525,
        ensures
            final(output)@ == timelock_set_bytes(*self) + old(output)@.subrange(525, old(output)@.len() as int),
    {
        let bytes = self.to_bytes();
        let mut i: usize = 0;
        while i < 525
            invariant
                0 <= i <= 525,
                bytes@ == timelock_set_bytes(*self),
                bytes@.len() == 525,
                output@.len() == old(output)@.len(),
                old(output)@.len() >= 525,
                forall|j: int| 0 <= j < i ==> output@[j] == bytes@[j],
                forall|j: int| 525 <= j < output@.len() ==> output@[j] == old(output)@[j],
            decreases 525 - i,
        {
            output[i] = bytes[i];
            i = i + 1;
        }
        assert(output@ =~= timelock_set_bytes(*self) + old(output)@.subrange(525, old(output)@.len() as int));
    }

    /// Writes the layout into `dst`, which must be exactly 525 bytes long.
    pub fn pack(src: TimelockSet, dst: &mut Vec<u8>) -> (r: Result<(), GovernanceError>)
        ensures
            old(dst)@.len() == 525 ==> r is Ok && final(dst)@ == timelock_set_bytes(src),
            old(dst)@.len() != 525 ==> r == Err::<(), GovernanceError>(GovernanceError::InvalidAccountData)
                && final(dst)@ == old(dst)@,
    {
        if dst.len() != TIMELOCK_SET_LEN {
            return Err(GovernanceError::InvalidAccountData);
        }
        src.pack_into_slice(dst);
        assert(final(dst)@ =~= timelock_set_bytes(src));
        Ok(())
    }
}

/// Bytes that are the encoding of some timelock set: 525 of them, in the accepted layout.
pub open spec fn canonical_bytes(b: Seq<u8>) -> bool {
    b.len() == 525 && layout_ok(b)
}

/// Encoding a timelock set of an accepted version gives bytes that the layout accepts,
/// and decoding them gives the set back.
pub proof fn lemma_decode_encoded(s: TimelockSet)
    requires
        version_ok(s.version),
    ensures
        canonical_bytes(timelock_set_bytes(s)),
        decodes_to(timelock_set_bytes(s), s),
{
    lemma_auto_spec_u64_to_from_le_bytes();
    let b = timelock_set_bytes(s);
    let t = s.state.timelock_transactions@;
    assert(b.subrange(1, 33) =~= s.signatory_mint@);
    assert(b.subrange(33, 65) =~= s.admin_mint@);
    assert(b.subrange(65, 97) =~= s.voting_mint@);
    assert(b.subrange(97, 129) =~= s.signatory_validation@);
    assert(b.subrange(129, 161) =~= s.admin_validation@);
    assert(b.subrange(161, 193) =~= s.voting_validation@);
    assert(b.subrange(194, 202) =~= spec_u64_to_le_bytes(s.state.total_voting_tokens_minted));
    assert forall|i: int| 0 <= i < 10 implies #[trigger] t[i]@ == b.subrange(202 + 32 * i, 234 + 32 * i) by {
        if i == 0 {
            assert(b.subrange(202, 234) =~= t[0]@);
        } else if i == 1 {
            assert(b.subrange(234, 266) =~= t[1]@);
        } else if i == 2 {
            assert(b.subrange(266, 298) =~= t[2]@);
        } else if i == 3 {
            assert(b.subrange(298, 330) =~= t[3]@);
        } else if i == 4 {
            assert(b.subrange(330, 362) =~= t[4]@);
        } else if i == 5 {
            assert(b.subrange(362, 394) =~= t[5]@);
        } else if i == 6 {
            assert(b.subrange(394, 426) =~= t[6]@);
        } else if i == 7 {
            assert(b.subrange(426, 458) =~= t[7]@);
        } else if i == 8 {
            assert(b.subrange(458, 490) =~= t[8]@);
        } else {
            assert(b.subrange(490, 522) =~= t[9]@);
        }
    }
}

/// Decoding canonical bytes and encoding the result gives the bytes back.
pub proof fn lemma_encode_decoded(b: Seq<u8>, s: TimelockSet)
    requires
        canonical_bytes(b),
        decodes_to(b, s),
    ensures
        timelock_set_bytes(s) == b,
{
    lemma_auto_spec_u64_to_from_le_bytes();
    let t = s.state.timelock_transactions@;
    assert(spec_u64_to_le_bytes(spec_u64_from_le_bytes(b.subrange(194, 202))) == b.subrange(194, 202));
    assert(t[0]@ == b.subrange(202, 234));
    assert(t[1]@ == b.subrange(234, 266));
    assert(t[2]@ == b.subrange(266, 298));
    assert(t[3]@ == b.subrange(298, 330));
    assert(t[4]@ == b.subrange(330, 362));
    assert(t[5]@ == b.subrange(362, 394));
    assert(t[6]@ == b.subrange(394, 426));
    assert(t[7]@ == b.subrange(426, 458));
    assert(t[8]@ == b.subrange(458, 490));
    assert(t[9]@ == b.subrange(490, 522));
    assert(timelock_set_bytes(s) =~= b);
}

/// The first `n` transaction addresses, one after the other.
pub open spec fn transactions_prefix(t: Seq<Address>, n: int) -> Seq<u8>
    decreases n,
{
    if n <= 0 {
        Seq::empty()
    } else {
        transactions_prefix(t, n - 1) + t[n - 1]@
    }
}

proof fn lemma_transactions_prefix_full(t: Seq<Address>)
    ensures
        transactions_prefix(t, 10) =~= transactions_bytes(t),
{
    reveal_with_fuel(transactions_prefix, 11);
    assert(transactions_prefix(t, 0) =~= Seq::<u8>::empty());
}

fn push_address(out: &mut Vec<u8>, a: &Address)
    ensures
        final(out)@ == old(out)@ + a@,
{
    let mut i: usize = 0;
    while i < 32
        invariant
            0 <= i <= 32,
            out@ == old(out)@ + a@.subrange(0, i as int),
        decreases 32 - i,
    {
        out.push(a.bytes[i]);
        assert(a@.subrange(0, i + 1) =~= a@.subrange(0, i as int).push(a@[i as int]));
        i = i + 1;
    }
    assert(a@.subrange(0, 32) =~= a@);
}

fn slice_range(input: &[u8], start: usize, end: usize) -> (r: &[u8])
    requires
        start <= end <= input@.len(),
    ensures
        r@ == input@.subrange(start as int, end as int),
{
    &input[start..end]
}

} // verus!
