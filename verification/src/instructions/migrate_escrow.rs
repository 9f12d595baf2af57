//! Giving the escrow's address data of its own.

use crate::authority::{
    keyed_seeds, make_keyed_seeds, program_address, DerivedAuthority, ESCROW_TAG,
};
use crate::bytes::Address;
use crate::errors::StakingError;
use crate::state::{Escrow, ProgramConfig};
use vstd::prelude::*;

verus! {

/// The accounts of the request that gives the escrow data.
#[derive(Clone, Copy, Debug, PartialEq, Eq)]
pub struct MigrateEscrow {
    /// The key that identifies the collection.
    pub staking_key: Address,
    /// The escrow.
    pub escrow: Address,
    /// The signer, who pays for the data.
    pub auth: Address,
}

/// The escrow named by the request is the one derived for the collection.
pub open spec fn escrow_derived(config: ProgramConfig, ctx: MigrateEscrow, bump: u8) -> bool {
    program_address(keyed_seeds(ESCROW_TAG@, ctx.staking_key@, bump), config.program@) == Some(
        ctx.escrow@,
    )
}

/// Makes the data that is kept at the escrow's address: the signer's key.
/// Rejects an escrow that is not the one derived for the collection.
pub fn handler(config: &ProgramConfig, ctx: &MigrateEscrow, bump: u8) -> (out: Result<
    Escrow,
    StakingError,
>)
    ensures
        match out {
            Ok(data) => escrow_derived(*config, *ctx, bump) && data == (Escrow { key: ctx.auth }),
            Err(e) => !escrow_derived(*config, *ctx, bump) && e == StakingError::InvalidDerivation,
        },
{
    let seeds = make_keyed_seeds(ESCROW_TAG.as_slice(), &ctx.staking_key, bump);
    match DerivedAuthority::confirm(&ctx.escrow, seeds, config.program) {
        Ok(_) => Ok(Escrow { key: ctx.auth }),
        Err(e) => Err(e),
    }
}

} // verus!
