//! Deterministic account addressing: every entity lives at an address derived from
//! a typed tuple of seeds and the owning program's id.

use vstd::prelude::*;
use vstd::slice::slice_to_vec;
use vstd::utf8::encode_utf8;
use crate::error::GovernanceError;

verus! {

/// A 32-byte account address (a public key or a program-derived address).
#[derive(Clone, Copy, Debug)]
pub struct Address {
    pub bytes: [u8; 32],
}

impl View for Address {
    type V = Seq<u8>;

    open spec fn view(&self) -> Seq<u8> {
        self.bytes@
    }
}

impl PartialEq for Address {
    fn eq(&self, o: &Address) -> (r: bool) {
        let mut i: usize = 0;
        while i < 32
            invariant
                0 <= i <= 32,
                forall|j: int| 0 <= j < i ==> self.bytes@[j] == o.bytes@[j],
            decreases 32 - i,
        {
            if self.bytes[i] != o.bytes[i] {
                return false;
            }
            i = i + 1;
        }
        proof {
            assert(self.bytes@ =~= o.bytes@);
        }
        true
    }
}

impl vstd::std_specs::cmp::PartialEqSpecImpl for Address {
    open spec fn obeys_eq_spec() -> bool {
        true
    }

    open spec fn eq_spec(&self, o: &Address) -> bool {
        self.bytes@ == o.bytes@
    }
}

impl Eq for Address {
}

/// The address held by the 32 bytes of `d` at `at`.
pub fn read_address(d: &[u8], at: usize) -> (r: Address)
    requires
        at + 32 <= d@.len(),
    ensures
        r@ == d@.subrange(at as int, at + 32),
{
    let len = d.len();
    assert(at + 32 <= len);
    let mut bytes: [u8; 32] = [0u8; 32];
    let mut i: usize = 0;
    while i < 32
        invariant
            0 <= i <= 32,
            at + 32 <= d@.len(),
            len == d@.len(),
            bytes@.len() == 32,
            forall|j: int| 0 <= j < i ==> bytes@[j] == d@[at + j],
        decreases 32 - i,
    {
        bytes[i] = d[at + i];
        i = i + 1;
    }
    let r = Address { bytes };
    assert(r@ =~= d@.subrange(at as int, at + 32));
    r
}

/// What the program-address search yields for the given seeds and program id:
/// the derived address and the bump seed, or nothing.
pub uninterp spec fn program_address(seeds: Seq<Seq<u8>>, program_id: Seq<u8>) -> Option<(Seq<u8>, u8)>;

/// A seed tuple that the address search refuses: too many seeds, or a seed too long.
pub open spec fn seeds_out_of_bounds(seeds: Seq<Seq<u8>>) -> bool {
    seeds.len() >= 16 || exists|i: int| 0 <= i < seeds.len() && seeds[i].len() > 32
}

pub open spec fn found_view(r: Option<(Address, u8)>) -> Option<(Seq<u8>, u8)> {
    match r {
        Some(p) => Some((p.0@, p.1)),
        None => None,
    }
}

/// Relies on solana_program's `Pubkey::try_find_program_address`: its result depends on
/// the seeds and the program id alone, and it finds nothing when there are 16 seeds or
/// more (the bump seed is appended to them) or when a seed is longer than 32 bytes.
#[verifier::external_body]
pub(crate) fn try_find_program_address(seeds: &Vec<Vec<u8>>, program_id: &Address) -> (r: Option<(Address, u8)>)
    ensures
        found_view(r) == program_address(seeds.deep_view(), program_id@),
        seeds_out_of_bounds(seeds.deep_view()) ==> r is None,
{
    let refs: Vec<&[u8]> = seeds.iter().map(|s| s.as_slice()).collect();
    let id = solana_program::pubkey::Pubkey::new_from_array(program_id.bytes);
    solana_program::pubkey::Pubkey::try_find_program_address(&refs, &id).map(
        |(k, b)| (Address { bytes: k.to_bytes() }, b),
    )
}

/// Derives the address and bump seed of the entity with the given seeds.
pub fn derive(seeds: &Vec<Vec<u8>>, program_id: &Address) -> (r: Option<(Address, u8)>)
    ensures
        found_view(r) == program_address(seeds.deep_view(), program_id@),
{
    try_find_program_address(seeds, program_id)
}


/// Whether `addr` is the address that the seeds derive under the program id.
pub open spec fn derives_to(seeds: Seq<Seq<u8>>, program_id: Seq<u8>, addr: Seq<u8>) -> bool {
    match program_address(seeds, program_id) {
        Some(p) => p.0 == addr,
        None => false,
    }
}

/// Checks that `supplied` is the address that the seeds derive, and returns its bump seed.
pub fn authenticate(seeds: &Vec<Vec<u8>>, program_id: &Address, supplied: &Address) -> (r: Result<
    u8,
    GovernanceError,
>)
    ensures
        r is Ok <==> derives_to(seeds.deep_view(), program_id@, supplied@),
        r matches Ok(b) ==> program_address(seeds.deep_view(), program_id@) == Some((supplied@, b)),
        r is Err ==> r == Err::<u8, GovernanceError>(GovernanceError::InvalidSeeds),
{
    match try_find_program_address(seeds, program_id) {
        Some((a, b)) => {
            if a == *supplied {
                Ok(b)
            } else {
                Err(GovernanceError::InvalidSeeds)
            }
        },
        None => Err(GovernanceError::InvalidSeeds),
    }
}

/// The first seed of every entity address: the bytes of "governance".
pub open spec fn authority_seed() -> Seq<u8> {
    seq![103u8, 111, 118, 101, 114, 110, 97, 110, 99, 101]
}

/// The bytes of "program-governance".
pub open spec fn program_governance_seed() -> Seq<u8> {
    seq![112u8, 114, 111, 103, 114, 97, 109, 45, 103, 111, 118, 101, 114, 110, 97, 110, 99, 101]
}

/// The bytes of "account-governance".
pub open spec fn account_governance_seed() -> Seq<u8> {
    seq![97u8, 99, 99, 111, 117, 110, 116, 45, 103, 111, 118, 101, 114, 110, 97, 110, 99, 101]
}

pub open spec fn realm_seeds(name: Seq<char>) -> Seq<Seq<u8>> {
    seq![authority_seed(), encode_utf8(name)]
}

pub open spec fn holding_seeds(realm: Seq<u8>, mint: Seq<u8>) -> Seq<Seq<u8>> {
    seq![authority_seed(), realm, mint]
}

pub open spec fn voter_record_seeds(realm: Seq<u8>, mint: Seq<u8>, owner: Seq<u8>) -> Seq<Seq<u8>> {
    seq![authority_seed(), realm, mint, owner]
}

pub open spec fn proposal_seeds(governance: Seq<u8>, name: Seq<char>) -> Seq<Seq<u8>> {
    seq![authority_seed(), governance, encode_utf8(name)]
}

pub open spec fn program_governance_seeds(realm: Seq<u8>, program: Seq<u8>) -> Seq<Seq<u8>> {
    seq![program_governance_seed(), realm, program]
}

pub open spec fn account_governance_seeds(realm: Seq<u8>, account: Seq<u8>) -> Seq<Seq<u8>> {
    seq![account_governance_seed(), realm, account]
}

proof fn lemma_seeds_view(r: &Vec<Vec<u8>>)
    ensures
        r.deep_view().len() == r@.len(),
        forall|i: int| 0 <= i < r@.len() ==> #[trigger] r.deep_view()[i] == r@[i]@,
{
    assert forall|i: int| 0 <= i < r@.len() implies #[trigger] r.deep_view()[i] == r@[i]@ by {
        assert(r@[i].deep_view() =~= r@[i]@);
    }
}

fn address_seed(a: &Address) -> (r: Vec<u8>)
    ensures
        r@ == a@,
{
    slice_to_vec(a.bytes.as_slice())
}

fn name_seed(name: &String) -> (r: Vec<u8>)
    ensures
        r@ == encode_utf8(name@),
{
    slice_to_vec(name.as_str().as_bytes())
}

fn program_authority_seed() -> (r: Vec<u8>)
    ensures
        r@ == authority_seed(),
{
    vec![103u8, 111, 118, 101, 114, 110, 97, 110, 99, 101]
}

/// Seeds of a Realm's address: the authority seed and the realm's name.
pub fn get_realm_address_seeds(name: &String) -> (r: Vec<Vec<u8>>)
    ensures
        r.deep_view() =~= realm_seeds(name@),
{
    let r = vec![program_authority_seed(), name_seed(name)];
    proof {
        lemma_seeds_view(&r);
    }
    r
}

/// Seeds of the escrow account that holds a realm's deposits of one mint.
pub fn get_governing_token_holding_address_seeds(realm: &Address, governing_token_mint: &Address) -> (r: Vec<Vec<u8>>)
    ensures
        r.deep_view() =~= holding_seeds(realm@, governing_token_mint@),
{
    let r = vec![program_authority_seed(), address_seed(realm), address_seed(governing_token_mint)];
    proof {
        lemma_seeds_view(&r);
    }
    r
}

/// Seeds of the deposit ledger of one (realm, mint, owner).
pub fn get_vote_record_address_seeds(
    realm: &Address,
    governing_token_mint: &Address,
    governing_token_owner: &Address,
) -> (r: Vec<Vec<u8>>)
    ensures
        r.deep_view() =~= voter_record_seeds(realm@, governing_token_mint@, governing_token_owner@),
{
    let r = vec![
        program_authority_seed(),
        address_seed(realm),
        address_seed(governing_token_mint),
        address_seed(governing_token_owner),
    ];
    proof {
        lemma_seeds_view(&r);
    }
    r
}

/// Seeds of a Proposal's address: its governance and its name.
pub fn get_proposal_address_seeds(account_governance: &Address, name: &String) -> (r: Vec<Vec<u8>>)
    ensures
        r.deep_view() =~= proposal_seeds(account_governance@, name@),
{
    let r = vec![program_authority_seed(), address_seed(account_governance), name_seed(name)];
    proof {
        lemma_seeds_view(&r);
    }
    r
}

/// Seeds of the governance over a program of a realm.
pub fn get_program_governance_address_seeds(realm: &Address, governed_program: &Address) -> (r: Vec<
    Vec<u8>,
>)
    ensures
        r.deep_view() =~= program_governance_seeds(realm@, governed_program@),
{
    let seed: Vec<u8> = vec![112u8, 114, 111, 103, 114, 97, 109, 45, 103, 111, 118, 101, 114, 110, 97, 110, 99, 101];
    let r = vec![seed, address_seed(realm), address_seed(governed_program)];
    proof {
        lemma_seeds_view(&r);
    }
    r
}

/// Seeds of the governance over an account of a realm.
pub fn get_account_governance_address_seeds(realm: &Address, governed_account: &Address) -> (r: Vec<
    Vec<u8>,
>)
    ensures
        r.deep_view() =~= account_governance_seeds(realm@, governed_account@),
{
    let seed: Vec<u8> = vec![97u8, 99, 99, 111, 117, 110, 116, 45, 103, 111, 118, 101, 114, 110, 97, 110, 99, 101];
    let r = vec![seed, address_seed(realm), address_seed(governed_account)];
    proof {
        lemma_seeds_view(&r);
    }
    r
}

pub open spec fn address_of(seeds: Seq<Seq<u8>>, program_id: Seq<u8>) -> Option<Seq<u8>> {
    match program_address(seeds, program_id) {
        Some(p) => Some(p.0),
        None => None,
    }
}

pub open spec fn address_view(r: Option<Address>) -> Option<Seq<u8>> {
    match r {
        Some(a) => Some(a@),
        None => None,
    }
}

fn address_for(seeds: &Vec<Vec<u8>>, program_id: &Address) -> (r: Option<Address>)
    ensures
        address_view(r) == address_of(seeds.deep_view(), program_id@),
{
    match try_find_program_address(seeds, program_id) {
        Some((a, _)) => Some(a),
        None => None,
    }
}

/// The address of the Realm with the given name; none where the name is longer than 32 bytes.
pub fn get_realm_address(name: &String, program_id: &Address) -> (r: Option<Address>)
    ensures
        address_view(r) == address_of(realm_seeds(name@), program_id@),
{
    address_for(&get_realm_address_seeds(name), program_id)
}

/// The address of a realm's escrow account for one mint.
pub fn get_governing_token_holding_address(
    realm: &Address,
    governing_token_mint: &Address,
    program_id: &Address,
) -> (r: Option<Address>)
    ensures
        address_view(r) == address_of(holding_seeds(realm@, governing_token_mint@), program_id@),
{
    address_for(&get_governing_token_holding_address_seeds(realm, governing_token_mint), program_id)
}

/// The address of the deposit ledger of one (realm, mint, owner).
pub fn get_vote_record_address(
    realm: &Address,
    governing_token_mint: &Address,
    governing_token_owner: &Address,
    program_id: &Address,
) -> (r: Option<Address>)
    ensures
        address_view(r) == address_of(
            voter_record_seeds(realm@, governing_token_mint@, governing_token_owner@),
            program_id@,
        ),
{
    address_for(
        &get_vote_record_address_seeds(realm, governing_token_mint, governing_token_owner),
        program_id,
    )
}

/// The address of the Proposal with the given name under a governance.
pub fn get_proposal_address(account_governance: &Address, name: &String, program_id: &Address) -> (r:
    Option<Address>)
    ensures
        address_view(r) == address_of(proposal_seeds(account_governance@, name@), program_id@),
{
    address_for(&get_proposal_address_seeds(account_governance, name), program_id)
}

/// The address of the governance over a program of a realm.
pub fn get_program_governance_address(
    realm: &Address,
    governed_program: &Address,
    program_id: &Address,
) -> (r: Option<Address>)
    ensures
        address_view(r) == address_of(program_governance_seeds(realm@, governed_program@), program_id@),
{
    address_for(&get_program_governance_address_seeds(realm, governed_program), program_id)
}

/// The address of the governance over an account of a realm.
pub fn get_account_governance_address(
    realm: &Address,
    governed_account: &Address,
    program_id: &Address,
) -> (r: Option<Address>)
    ensures
        address_view(r) == address_of(account_governance_seeds(realm@, governed_account@), program_id@),
{
    address_for(&get_account_governance_address_seeds(realm, governed_account), program_id)
}

/// Address derivation is a function: equal seeds and program ids give equal results.
pub proof fn lemma_derive_deterministic(
    seeds1: Seq<Seq<u8>>,
    seeds2: Seq<Seq<u8>>,
    program_id1: Seq<u8>,
    program_id2: Seq<u8>,
)
    requires
        seeds1 == seeds2,
        program_id1 == program_id2,
    ensures
        program_address(seeds1, program_id1) == program_address(seeds2, program_id2),
{
}

} // verus!
