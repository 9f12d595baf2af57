//! Exempting a collection from fees.

use crate::bytes::Address;
use crate::errors::StakingError;
use crate::state::{confirm_registry, registry_derived, ProgramConfig, Staking};
use vstd::prelude::*;

verus! {

/// The accounts of the request that sets a collection's exemption.
#[derive(Clone, Copy, Debug, PartialEq, Eq)]
pub struct SetFeesExempt {
    /// The address of the collection's record.
    pub staking: Address,
    /// The signer.
    pub auth: Address,
}

/// Why the request is rejected, if it is: the record is not at its
/// derived address, or does not name the derived escrow; or the signer is
/// not the fee authority.
pub open spec fn exempt_rejection(
    config: ProgramConfig,
    ctx: SetFeesExempt,
    staking: Staking,
) -> Option<StakingError> {
    if !registry_derived(config.program, staking, ctx.staking, staking.escrow) {
        Some(StakingError::InvalidDerivation)
    } else if ctx.auth@ != config.fee_authority@ {
        Some(StakingError::Unauthorized)
    } else {
        None
    }
}

/// What the request does. Accepted, the exemption is set and all else
/// kept. Rejected, the reason is named and the record is as it was.
pub open spec fn exempt_outcome(
    config: ProgramConfig,
    ctx: SetFeesExempt,
    staking: Staking,
    staking_after: Staking,
    fees_exempt: bool,
    out: Result<(), StakingError>,
) -> bool {
    match out {
        Ok(_) => {
            &&& exempt_rejection(config, ctx, staking) is None
            &&& staking_after == (Staking { fees_exempt, ..staking })
        },
        Err(e) => {
            &&& exempt_rejection(config, ctx, staking) == Some(e)
            &&& staking_after == staking
        },
    }
}

/// Sets whether a collection is exempt from fees. Only the fee authority
/// may: the owner of the collection may not.
pub fn handler(
    config: &ProgramConfig,
    ctx: &SetFeesExempt,
    staking: &mut Staking,
    fees_exempt: bool,
) -> (out: Result<(), StakingError>)
    ensures
        exempt_outcome(*config, *ctx, *old(staking), *final(staking), fees_exempt, out),
{
    let current = *staking;
    if confirm_registry(&config.program, &current, &ctx.staking, &current.escrow).is_err() {
        return Err(StakingError::InvalidDerivation);
    }
    if !ctx.auth.same_as(&config.fee_authority) {
        return Err(StakingError::Unauthorized);
    }
    staking.fees_exempt = fees_exempt;
    Ok(())
}

} // verus!
