//! Addresses and their deterministic derivation from a tag and seed bytes.

use solana_program::pubkey::Pubkey;
use vstd::prelude::*;
use vstd::string::StringSliceAdditionalSpecFns;

verus! {

/// Length of an address in bytes.
pub const ADDRESS_LEN: usize = 32;

/// Longest seed that an address can be derived from.
pub const MAX_SEED_LEN: usize = 32;

/// The address of an account, a program or a token mint.
#[derive(Clone, Copy, Debug)]
pub struct Address {
    pub bytes: [u8; ADDRESS_LEN],
}

impl View for Address {
    type V = Seq<u8>;

    open spec fn view(&self) -> Seq<u8> {
        self.bytes@
    }
}

impl DeepView for Address {
    type V = Seq<u8>;

    open spec fn deep_view(&self) -> Seq<u8> {
        self@
    }
}

impl PartialEq for Address {
    fn eq(&self, other: &Address) -> (same: bool) {
        let mut i: usize = 0;
        while i < ADDRESS_LEN
            invariant
                i <= ADDRESS_LEN,
                forall|j: int| 0 <= j < i ==> self.bytes@[j] == other.bytes@[j],
            decreases ADDRESS_LEN - i,
        {
            if self.bytes[i] != other.bytes[i] {
                return false;
            }
            i += 1;
        }
        assert(self.bytes@ =~= other.bytes@);
        true
    }
}

impl Eq for Address {

}

impl vstd::std_specs::cmp::PartialEqSpecImpl for Address {
    open spec fn obeys_eq_spec() -> bool {
        true
    }

    open spec fn eq_spec(&self, other: &Address) -> bool {
        self@ == other@
    }
}

/// The bytes of each seed of a list, in order.
pub open spec fn seed_bytes(seeds: Seq<&[u8]>) -> Seq<Seq<u8>> {
    Seq::new(seeds.len(), |i: int| seeds[i]@)
}

/// Seeds of the reward pool record: the tag alone, since there is one pool.
pub open spec fn reward_pool_seeds() -> Seq<Seq<u8>> {
    seq!["reward_pool".spec_bytes()]
}

/// Seeds of the ledger of one farmer.
pub open spec fn farmer_account_seeds(farmer: Seq<u8>) -> Seq<Seq<u8>> {
    seq!["farmer".spec_bytes(), farmer]
}

/// Seeds of the record of one task.
pub open spec fn task_record_seeds(task_id: Seq<char>) -> Seq<Seq<u8>> {
    seq!["task".spec_bytes(), vstd::utf8::encode_utf8(task_id)]
}

/// Seeds of the vault that holds the rewards paid in one token.
pub open spec fn reward_vault_seeds(token_mint: Seq<u8>) -> Seq<Seq<u8>> {
    seq!["reward_vault".spec_bytes(), token_mint]
}

/// The address and bump seed that a program derives from a list of seeds, or
/// `None` where the seeds admit no derived address.
pub uninterp spec fn program_address(seeds: Seq<Seq<u8>>, program_id: Seq<u8>) -> Option<
    (Seq<u8>, u8),
>;

/// The derived address without its bump seed.
pub open spec fn derived_address(seeds: Seq<Seq<u8>>, program_id: Seq<u8>) -> Option<Seq<u8>> {
    match program_address(seeds, program_id) {
        Some((address, _)) => Some(address),
        None => None,
    }
}

/// What an address handed back by a derivation stands for.
pub open spec fn address_view(address: Option<Address>) -> Option<Seq<u8>> {
    match address {
        Some(a) => Some(a@),
        None => None,
    }
}

/// The seeds from which the address of the pool is derived.
pub fn get_reward_pool_seeds() -> (seeds: [&'static [u8]; 1])
    ensures
        seed_bytes(seeds@) == reward_pool_seeds(),
{
    let seeds: [&'static [u8]; 1] = ["reward_pool".as_bytes()];
    seeds
}

/// The seeds from which the address of a farmer's ledger is derived.
pub fn get_farmer_account_seeds<'a>(farmer_address: &'a Address) -> (seeds: [&'a [u8]; 2])
    ensures
        seed_bytes(seeds@) == farmer_account_seeds(farmer_address@),
{
    let seeds: [&'a [u8]; 2] = ["farmer".as_bytes(), farmer_address.bytes.as_slice()];
    seeds
}

/// The seeds from which the address of the record of a task is derived.
pub fn get_task_record_seeds<'a>(task_id: &'a str) -> (seeds: [&'a [u8]; 2])
    ensures
        seed_bytes(seeds@) == task_record_seeds(task_id@),
{
    let seeds: [&'a [u8]; 2] = ["task".as_bytes(), task_id.as_bytes()];
    seeds
}

/// The seeds from which the address of the vault of a token is derived.
pub fn get_reward_vault_seeds<'a>(token_mint: &'a Address) -> (seeds: [&'a [u8]; 2])
    ensures
        seed_bytes(seeds@) == reward_vault_seeds(token_mint@),
{
    let seeds: [&'a [u8]; 2] = ["reward_vault".as_bytes(), token_mint.bytes.as_slice()];
    seeds
}

/// Calls `Pubkey::try_find_program_address` of solana-program, which searches
/// the bump seeds from 255 downwards for the first one whose hash with the
/// seeds and the program id lies off the curve. Nothing of this is proved
/// here: the contract only names the result, which is a function of the
/// seeds and the program id alone, and repeats one bound of that function:
/// it finds nothing where a seed is longer than 32 bytes.
#[verifier::external_body]
fn try_find_program_address(program_id: &Address, seeds: &[&[u8]]) -> (found: Option<
    (Address, u8),
>)
    ensures
        match found {
            Some((address, bump)) => program_address(seed_bytes(seeds@), program_id@) == Some(
                (address@, bump),
            ),
            None => program_address(seed_bytes(seeds@), program_id@) is None,
        },
        (exists|i: int| 0 <= i < seeds@.len() && seeds@[i]@.len() > MAX_SEED_LEN)
            ==> found is None,
{
    match Pubkey::try_find_program_address(seeds, &Pubkey::new_from_array(program_id.bytes)) {
        Some((key, bump)) => Some((Address { bytes: key.to_bytes() }, bump)),
        None => None,
    }
}

/// The address derived from `seeds` under `program_id`, if there is one.
pub fn derive_address(program_id: &Address, seeds: &[&[u8]]) -> (address: Option<Address>)
    ensures
        address_view(address) == derived_address(seed_bytes(seeds@), program_id@),
        (exists|i: int| 0 <= i < seeds@.len() && seeds@[i]@.len() > MAX_SEED_LEN)
            ==> address is None,
{
    match try_find_program_address(program_id, seeds) {
        Some((address, _)) => Some(address),
        None => None,
    }
}

/// Whether `key` is the address that a derivation gave.
pub fn is_expected(key: &Address, expected: &Option<Address>) -> (same: bool)
    ensures
        same == (address_view(*expected) == Some(key@)),
{
    match expected {
        Some(address) => *key == *address,
        None => false,
    }
}

} // verus!
