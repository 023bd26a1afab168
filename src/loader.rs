//! Proof of authority over an upgradable program: its program data account must name the
//! expected authority, or the named authority must sign.

use vstd::prelude::*;
use crate::address::{derives_to, read_address, try_find_program_address, Address};
use crate::error::GovernanceError;
use crate::token::AccountData;

verus! {

/// The bytes of the upgradeable loader's program id.
pub open spec fn loader_program_bytes() -> Seq<u8> {
    seq![
        2u8, 168, 246, 145, 78, 136, 161, 176, 226, 16, 21, 62, 247, 99, 174, 43, 0, 194, 185, 61,
        22, 193, 36, 210, 192, 83, 122, 16, 4, 128, 0, 0,
    ]
}

/// Relies on solana_program's `bpf_loader_upgradeable::id()`: the program id declared from
/// the base-58 text "BPFLoaderUpgradeab1e11111111111111111111111".
#[verifier::external_body]
fn loader_program_id() -> (r: Address)
    ensures
        r@ == loader_program_bytes(),
{
    Address { bytes: solana_program::bpf_loader_upgradeable::id().to_bytes() }
}

/// Whether byte `at` is an option tag: 0, or 1 followed by `body` more bytes.
pub open spec fn option_byte_ok(d: Seq<u8>, at: int, body: int) -> bool {
    d.len() > at && (d[at] == 0 || (d[at] == 1 && d.len() >= at + 1 + body))
}

/// The upgradeable loader's account state as its program data account encodes it: a
/// little-endian four-byte variant index (uninitialized, buffer, program, program data)
/// and the variant's fields, where an optional address is a 0 or 1 byte followed by the
/// address. The result is none where the bytes do not decode, and otherwise the upgrade
/// authority that a program data state names, if any.
pub open spec fn loader_upgrade_authority(d: Seq<u8>) -> Option<Option<Seq<u8>>> {
    if d.len() < 4 || d[1] != 0 || d[2] != 0 || d[3] != 0 {
        None
    } else if d[0] == 0 {
        Some(None)
    } else if d[0] == 1 {
        if option_byte_ok(d, 4, 32) {
            Some(None)
        } else {
            None
        }
    } else if d[0] == 2 {
        if d.len() >= 36 {
            Some(None)
        } else {
            None
        }
    } else if d[0] == 3 {
        if !option_byte_ok(d, 12, 32) {
            None
        } else if d[12] == 1 {
            Some(Some(d.subrange(13, 45)))
        } else {
            Some(None)
        }
    } else {
        None
    }
}

/// Decodes the upgrade authority that a program data account names.
pub fn decode_upgrade_authority(d: &Vec<u8>) -> (r: Result<Option<Address>, GovernanceError>)
    ensures
        match loader_upgrade_authority(d@) {
            None => r == Err::<Option<Address>, GovernanceError>(
                GovernanceError::InvalidProgramDataAccountData,
            ),
            Some(None) => r == Ok::<Option<Address>, GovernanceError>(None),
            Some(Some(a)) => r matches Ok(Some(x)) && x@ == a,
        },
{
    let len = d.len();
    if len < 4 || d[1] != 0 || d[2] != 0 || d[3] != 0 {
        return Err(GovernanceError::InvalidProgramDataAccountData);
    }
    let tag = d[0];
    if tag == 0 {
        Ok(None)
    } else if tag == 1 {
        if len > 4 && (d[4] == 0 || (d[4] == 1 && len >= 37)) {
            Ok(None)
        } else {
            Err(GovernanceError::InvalidProgramDataAccountData)
        }
    } else if tag == 2 {
        if len >= 36 {
            Ok(None)
        } else {
            Err(GovernanceError::InvalidProgramDataAccountData)
        }
    } else if tag == 3 {
        if !(len > 12 && (d[12] == 0 || (d[12] == 1 && len >= 45))) {
            Err(GovernanceError::InvalidProgramDataAccountData)
        } else if d[12] == 1 {
            Ok(Some(read_address(d.as_slice(), 13)))
        } else {
            Ok(None)
        }
    } else {
        Err(GovernanceError::InvalidProgramDataAccountData)
    }
}

/// The error of `assert_program_upgrade_authority`, or none where it passes.
pub open spec fn upgrade_authority_error(
    expected: Address,
    program: Address,
    program_data: &AccountData,
    authority: &AccountData,
) -> Option<GovernanceError> {
    if program_data.owner@ != loader_program_bytes() {
        Some(GovernanceError::IncorrectProgramId)
    } else if !derives_to(seq![program@], loader_program_bytes(), program_data.key@) {
        Some(GovernanceError::InvalidProgramDataAccountKey)
    } else {
        match loader_upgrade_authority(program_data.data@) {
            None => Some(GovernanceError::InvalidProgramDataAccountData),
            Some(None) => Some(GovernanceError::ProgramNotUpgradable),
            Some(Some(a)) => if a == expected@ {
                None
            } else if a != authority.key@ {
                Some(GovernanceError::InvalidUpgradeAuthority)
            } else if !authority.is_signer {
                Some(GovernanceError::UpgradeAuthorityMustSign)
            } else {
                None
            },
        }
    }
}

/// Checks whether the expected upgrade authority is the program's current upgrade
/// authority; where it is not, the current upgrade authority must have signed.
pub fn assert_program_upgrade_authority(
    expected_upgrade_authority: &Address,
    program_address: &Address,
    program_data_info: &AccountData,
    program_upgrade_authority_info: &AccountData,
) -> (r: Result<(), GovernanceError>)
    ensures
        match upgrade_authority_error(
            *expected_upgrade_authority,
            *program_address,
            program_data_info,
            program_upgrade_authority_info,
        ) {
            Some(e) => r == Err::<(), GovernanceError>(e),
            None => r is Ok,
        },
{
    let loader = loader_program_id();
    if program_data_info.owner != loader {
        return Err(GovernanceError::IncorrectProgramId);
    }
    let seeds: Vec<Vec<u8>> = vec![vstd::slice::slice_to_vec(program_address.bytes.as_slice())];
    assert(seeds.deep_view() =~= seq![program_address@]) by {
        assert(seeds@[0].deep_view() =~= seeds@[0]@);
    }
    match try_find_program_address(&seeds, &loader) {
        Some((key, _)) => {
            if key != program_data_info.key {
                return Err(GovernanceError::InvalidProgramDataAccountKey);
            }
        },
        None => {
            return Err(GovernanceError::InvalidProgramDataAccountKey);
        },
    }
    match decode_upgrade_authority(&program_data_info.data)? {
        Some(authority) => {
            if authority != *expected_upgrade_authority {
                if authority != program_upgrade_authority_info.key {
                    return Err(GovernanceError::InvalidUpgradeAuthority);
                }
                if !program_upgrade_authority_info.is_signer {
                    return Err(GovernanceError::UpgradeAuthorityMustSign);
                }
            }
            Ok(())
        },
        None => Err(GovernanceError::ProgramNotUpgradable),
    }
}

} // verus!
