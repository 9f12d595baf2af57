//! Addresses that the program alone can sign for.
//!
//! Such an address is derived from a list of seeds, the last of which is a
//! one-byte bump, and from the program's own address. It has no private key:
//! the program signs for it by naming the seeds again. Each operation
//! derives the addresses it is given anew and rejects one that differs.

use crate::bytes::Address;
use crate::errors::StakingError;
use vstd::prelude::*;

verus! {

/// The seed that marks the record of a collection: the text `staking`.
pub const STAKING_TAG: [u8; 7] = [115, 116, 97, 107, 105, 110, 103];

/// The seed that marks the authority over staked tokens and rewards: the
/// text `escrow`.
pub const ESCROW_TAG: [u8; 6] = [101, 115, 99, 114, 111, 119];

/// The seed that marks the account that holds the reward token: the text
/// `rewards`.
pub const REWARDS_TAG: [u8; 7] = [114, 101, 119, 97, 114, 100, 115];

/// The seed that marks the record of a staked token: the text `staked_nft`.
pub const STAKED_NFT_TAG: [u8; 10] = [115, 116, 97, 107, 101, 100, 95, 110, 102, 116];

/// The seed that marks the account that holds a deposited token: the text
/// `deposit`.
pub const DEPOSIT_TAG: [u8; 7] = [100, 101, 112, 111, 115, 105, 116];

/// The address that `seeds` derive for `program`, where they derive one.
pub uninterp spec fn program_address(seeds: Seq<Seq<u8>>, program: Seq<u8>) -> Option<Seq<u8>>;

/// A list of seeds as byte strings.
pub open spec fn seed_bytes(seeds: Seq<Vec<u8>>) -> Seq<Seq<u8>> {
    Seq::new(seeds.len(), |i: int| seeds[i]@)
}

/// More seeds than a derivation takes, or a seed longer than it takes.
pub open spec fn seeds_oversized(seeds: Seq<Seq<u8>>) -> bool {
    seeds.len() > 16 || exists|i: int| 0 <= i < seeds.len() && (#[trigger] seeds[i]).len() > 32
}

/// `solana_program::pubkey::PubkeyError`, the failure of a derivation. It is
/// carried through unread.
#[verifier::external_type_specification]
#[verifier::external_body]
pub struct ExPubkeyError(solana_program::pubkey::PubkeyError);

/// Calls `solana_program::pubkey::Pubkey::create_program_address`. The
/// outcome is trusted to be a function of the seeds and the program's
/// address alone. Of it only this is claimed: more than 16 seeds, or a seed
/// of more than 32 bytes, fail.
#[verifier::external_body]
pub(crate) fn create_program_address(seeds: &Vec<Vec<u8>>, program: &Address) -> (out: Result<
    Address,
    solana_program::pubkey::PubkeyError,
>)
    ensures
        out matches Ok(a) ==> program_address(seed_bytes(seeds@), program@) == Some(a@),
        out is Err ==> program_address(seed_bytes(seeds@), program@) is None,
        seeds_oversized(seed_bytes(seeds@)) ==> out is Err,
{
    let parts: Vec<&[u8]> = seeds.iter().map(|s| s.as_slice()).collect();
    let id = solana_program::pubkey::Pubkey::new_from_array(program.bytes);
    match solana_program::pubkey::Pubkey::create_program_address(&parts, &id) {
        Ok(key) => Ok(Address { bytes: key.to_bytes() }),
        Err(e) => Err(e),
    }
}

/// An address together with the seeds that derive it for a program. A value
/// of this type is evidence of the derivation: it is made by `derive` and
/// `confirm` only.
pub struct DerivedAuthority {
    address: Address,
    seeds: Vec<Vec<u8>>,
    program: Address,
}

impl DerivedAuthority {
    #[verifier::type_invariant]
    spec fn is_derived(self) -> bool {
        program_address(seed_bytes(self.seeds@), self.program@) == Some(self.address@)
    }

    /// The derived address.
    pub closed spec fn address_bytes(self) -> Seq<u8> {
        self.address@
    }

    /// The seeds, bump included.
    pub closed spec fn seeds(self) -> Seq<Seq<u8>> {
        seed_bytes(self.seeds@)
    }

    /// The address of the program that signs.
    pub closed spec fn program_bytes(self) -> Seq<u8> {
        self.program@
    }

    /// The address that `seeds` derive for `program`, with the seeds. There
    /// is none where the seeds are too many or too long, or where they
    /// derive a point that has a private key.
    pub fn derive(seeds: Vec<Vec<u8>>, program: Address) -> (out: Option<DerivedAuthority>)
        ensures
            match out {
                Some(authority) => {
                    &&& program_address(seed_bytes(seeds@), program@) == Some(
                        authority.address_bytes(),
                    )
                    &&& authority.seeds() == seed_bytes(seeds@)
                    &&& authority.program_bytes() == program@
                },
                None => program_address(seed_bytes(seeds@), program@) is None,
            },
            seeds_oversized(seed_bytes(seeds@)) ==> out is None,
    {
        match create_program_address(&seeds, &program) {
            Ok(address) => Some(DerivedAuthority { address, seeds, program }),
            Err(_) => None,
        }
    }

    /// Confirms that `declared` is the address that `seeds` derive for
    /// `program`, and rejects it otherwise.
    pub fn confirm(declared: &Address, seeds: Vec<Vec<u8>>, program: Address) -> (out: Result<
        DerivedAuthority,
        StakingError,
    >)
        ensures
            match out {
                Ok(authority) => {
                    &&& program_address(seed_bytes(seeds@), program@) == Some(declared@)
                    &&& authority.address_bytes() == declared@
                    &&& authority.seeds() == seed_bytes(seeds@)
                    &&& authority.program_bytes() == program@
                },
                Err(e) => {
                    &&& e == StakingError::InvalidDerivation
                    &&& program_address(seed_bytes(seeds@), program@) != Some(declared@)
                },
            },
    {
        match DerivedAuthority::derive(seeds, program) {
            Some(authority) => {
                if authority.address.same_as(declared) {
                    Ok(authority)
                } else {
                    Err(StakingError::InvalidDerivation)
                }
            },
            None => Err(StakingError::InvalidDerivation),
        }
    }

    /// The derived address.
    pub fn address(&self) -> (a: Address)
        ensures
            a@ == self.address_bytes(),
            program_address(self.seeds(), self.program_bytes()) == Some(a@),
    {
        proof {
            use_type_invariant(self);
        }
        self.address
    }

    /// The seeds to sign with, bump included. Named together with the
    /// program's address they derive `address` again.
    pub fn signer_seeds(&self) -> (seeds: &Vec<Vec<u8>>)
        ensures
            seed_bytes(seeds@) == self.seeds(),
            program_address(seed_bytes(seeds@), self.program_bytes()) == Some(
                self.address_bytes(),
            ),
    {
        proof {
            use_type_invariant(self);
        }
        &self.seeds
    }
}

/// A copy of `src`.
pub fn copy_bytes(src: &[u8]) -> (out: Vec<u8>)
    ensures
        out@ == src@,
{
    let mut out: Vec<u8> = Vec::new();
    let mut i: usize = 0;
    while i < src.len()
        invariant
            0 <= i <= src.len(),
            out@ == src@.subrange(0, i as int),
        decreases src.len() - i,
    {
        out.push(src[i]);
        assert(out@ =~= src@.subrange(0, i as int + 1));
        i += 1;
    }
    assert(out@ =~= src@);
    out
}

/// The seeds of an address kept per key: a tag, the key, the bump.
pub open spec fn keyed_seeds(tag: Seq<u8>, key: Seq<u8>, bump: u8) -> Seq<Seq<u8>> {
    seq![tag, key, seq![bump]]
}

/// The seeds of the account that holds the reward token: the tag, the
/// collection's key, the reward token's mint, the bump.
pub open spec fn rewards_seeds(collection: Seq<u8>, mint: Seq<u8>, bump: u8) -> Seq<Seq<u8>> {
    seq![REWARDS_TAG@, collection, mint, seq![bump]]
}

/// The seeds made of `tag`, `key` and `bump`.
pub fn make_keyed_seeds(tag: &[u8], key: &Address, bump: u8) -> (seeds: Vec<Vec<u8>>)
    ensures
        seed_bytes(seeds@) == keyed_seeds(tag@, key@, bump),
{
    let mut seeds: Vec<Vec<u8>> = Vec::new();
    seeds.push(copy_bytes(tag));
    seeds.push(copy_bytes(key.bytes.as_slice()));
    let mut last: Vec<u8> = Vec::new();
    last.push(bump);
    assert(last@ =~= seq![bump]);
    seeds.push(last);
    assert(seed_bytes(seeds@) =~= keyed_seeds(tag@, key@, bump));
    seeds
}

/// The seeds of the account that holds the reward token of a collection.
pub fn make_rewards_seeds(collection: &Address, mint: &Address, bump: u8) -> (seeds: Vec<Vec<u8>>)
    ensures
        seed_bytes(seeds@) == rewards_seeds(collection@, mint@, bump),
{
    let mut seeds: Vec<Vec<u8>> = Vec::new();
    seeds.push(copy_bytes(REWARDS_TAG.as_slice()));
    seeds.push(copy_bytes(collection.bytes.as_slice()));
    seeds.push(copy_bytes(mint.bytes.as_slice()));
    let mut last: Vec<u8> = Vec::new();
    last.push(bump);
    assert(last@ =~= seq![bump]);
    seeds.push(last);
    assert(seed_bytes(seeds@) =~= rewards_seeds(collection@, mint@, bump));
    seeds
}

} // verus!
