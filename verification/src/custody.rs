//! How a staked token is kept from its owner, and how it is given back.
//!
//! Three ways of custody exist, for tokens issued under different
//! standards. Each is a short list of nested calls into the token program,
//! the metadata program or the policy program. This module decides the
//! calls and their order; the caller makes them. A model of the token tells
//! what the calls achieve: after staking only the escrow can move the
//! token, after unstaking it is the owner's again and nothing is left with
//! the escrow.

use crate::errors::StakingError;
use vstd::prelude::*;

verus! {

/// The one token that is staked: no call moves or delegates more.
pub const TOKEN_AMOUNT: u64 = 1;

/// The standard under which a token was issued, as its metadata records it.
#[derive(Clone, Copy, Debug, PartialEq, Eq, Structural)]
pub enum TokenStandard {
    NonFungible,
    FungibleAsset,
    Fungible,
    NonFungibleEdition,
    ProgrammableNonFungible,
    ProgrammableNonFungibleEdition,
}

/// The role of the delegate that a token's record names.
#[derive(Clone, Copy, Debug, PartialEq, Eq, Structural)]
pub enum TokenDelegateRole {
    Sale,
    Transfer,
    Utility,
    Staking,
    Standard,
    LockedTransfer,
    Migration,
}

/// The way a token is kept while it is staked.
#[derive(Clone, Copy, Debug, PartialEq, Eq, Structural)]
pub enum CustodyVariant {
    /// The token is moved into an account that the escrow owns.
    DirectDeposit,
    /// The token stays in its owner's account, delegated to the escrow and
    /// locked by the metadata program.
    DelegatedLock,
    /// The token stays in its owner's account, approved to the escrow and
    /// locked by the policy program.
    PolicyEnforced,
}

/// The way a staked token is given back.
#[derive(Clone, Copy, Debug, PartialEq, Eq, Structural)]
pub enum ReleaseRoute {
    /// Out of the deposit account, by the token program.
    DirectDeposit,
    /// Unlocked and revoked under the escrow's authority. The token's
    /// standard must be on record.
    DelegatedLock,
    /// Unlocked and revoked under the escrow's authority, the revocation
    /// chosen by the delegate's role on record.
    DelegatedLockByRole,
    /// Unlocked by the policy program.
    PolicyEnforced,
    /// Out of the deposit account, by the metadata program: for a token
    /// that was deposited before its collection moved to another standard.
    Custodial,
}

/// The capability that a delegation grants.
#[derive(Clone, Copy, Debug, PartialEq, Eq, Structural)]
pub enum DelegateArgs {
    StakingV1 { amount: u64 },
    StandardV1 { amount: u64 },
}

/// The capability that a revocation withdraws.
#[derive(Clone, Copy, Debug, PartialEq, Eq, Structural)]
pub enum RevokeArgs {
    StakingV1,
    StandardV1,
    MigrationV1,
}

/// A party to the custody of a token.
#[derive(Clone, Copy, Debug, PartialEq, Eq, Structural)]
pub enum Party {
    /// The owner of the token, who signs the request.
    Staker,
    /// The escrow, for which the program signs.
    Escrow,
}

/// A delegation of a token: to whom, and in which role.
#[derive(Clone, Copy, Debug, PartialEq, Eq, Structural)]
pub struct Delegation {
    pub role: TokenDelegateRole,
    pub to: Party,
}

/// One nested call.
#[derive(Clone, Copy, Debug, PartialEq, Eq, Structural)]
#[allow(inconsistent_fields)]
pub enum CustodyAction {
    /// Token program: the staker moves the token into the deposit account.
    Deposit { amount: u64 },
    /// Token program: the escrow moves the token back to the staker.
    Withdraw { amount: u64 },
    /// Token program: the escrow closes the deposit account; what it held
    /// in rent goes to the staker.
    CloseDeposit,
    /// Metadata program: the staker delegates the token to `delegate`.
    Delegate { args: DelegateArgs, delegate: Party },
    /// Metadata program: `authority`, the delegate, locks the token.
    Lock { authority: Party, with_token_record: bool },
    /// Metadata program: `authority`, the delegate, unlocks the token.
    Unlock { authority: Party, with_token_record: bool },
    /// Metadata program: the staker revokes the delegation to `delegate`.
    Revoke { args: RevokeArgs, delegate: Party },
    /// Metadata program: the escrow moves the token back to the staker.
    ReturnTransfer { amount: u64, with_token_records: bool },
    /// Policy program: the staker approves the escrow as delegate.
    PolicyApprove,
    /// Policy program: the token is locked.
    PolicyLock,
    /// Policy program: the escrow unlocks the token.
    PolicyUnlock,
}

/// Where a token stands between its owner and the escrow.
#[derive(Clone, Copy, Debug, PartialEq, Eq, Structural)]
pub struct TokenState {
    /// The token is in the deposit account.
    pub deposited: bool,
    /// The deposit account exists.
    pub deposit_open: bool,
    /// The delegation of the token, if it is delegated.
    pub delegate: Option<Delegation>,
    /// The token is locked in its owner's account.
    pub locked: bool,
}

/// The token is programmable: its record of delegates is part of each call.
pub open spec fn is_programmable(standard: Option<TokenStandard>) -> bool {
    standard == Some(TokenStandard::ProgrammableNonFungible)
}

/// The token is its owner's: in the owner's account, not locked, with no
/// delegate, and no deposit account is left.
pub open spec fn owner_holds(s: TokenState) -> bool {
    !s.deposited && !s.deposit_open && s.delegate is None && !s.locked
}

/// The owner can move the token.
pub open spec fn owner_can_move(s: TokenState) -> bool {
    !s.deposited && !s.locked
}

/// The escrow can bring the token back into its owner's hands: it holds
/// the token, or it is the delegate of a locked token.
pub open spec fn escrow_controls(s: TokenState) -> bool {
    s.deposited || (s.locked && delegated_to(s, Party::Escrow))
}

/// The token is delegated to `party`.
pub open spec fn delegated_to(s: TokenState, party: Party) -> bool {
    match s.delegate {
        Some(delegation) => delegation.to == party,
        None => false,
    }
}

/// The role of the token's delegate, if it has one.
pub open spec fn role_of(s: TokenState) -> Option<TokenDelegateRole> {
    match s.delegate {
        Some(delegation) => Some(delegation.role),
        None => None,
    }
}

/// The role that a delegation grants.
pub open spec fn granted_role(args: DelegateArgs) -> TokenDelegateRole {
    match args {
        DelegateArgs::StakingV1 { .. } => TokenDelegateRole::Staking,
        DelegateArgs::StandardV1 { .. } => TokenDelegateRole::Standard,
    }
}

/// The role that a revocation withdraws.
pub open spec fn revoked_role(args: RevokeArgs) -> TokenDelegateRole {
    match args {
        RevokeArgs::StakingV1 => TokenDelegateRole::Staking,
        RevokeArgs::StandardV1 => TokenDelegateRole::Standard,
        RevokeArgs::MigrationV1 => TokenDelegateRole::Migration,
    }
}

/// The token after one nested call, or nothing where the call fails: a
/// locked token is neither moved nor revoked, only the party that the
/// token was delegated to locks and unlocks it, a revocation of another
/// party's delegation or in another mode than the delegation fails, an
/// account that holds a token is not closed.
pub open spec fn effect(action: CustodyAction, s: TokenState) -> Option<TokenState> {
    match action {
        CustodyAction::Deposit { amount } => if owner_can_move(s) && amount == TOKEN_AMOUNT {
            Some(TokenState { deposited: true, deposit_open: true, ..s })
        } else {
            None
        },
        CustodyAction::Withdraw { amount } => if s.deposited && amount == TOKEN_AMOUNT {
            Some(TokenState { deposited: false, ..s })
        } else {
            None
        },
        CustodyAction::ReturnTransfer { amount, .. } => if s.deposited && amount == TOKEN_AMOUNT {
            Some(TokenState { deposited: false, ..s })
        } else {
            None
        },
        CustodyAction::CloseDeposit => if s.deposit_open && !s.deposited {
            Some(TokenState { deposit_open: false, ..s })
        } else {
            None
        },
        CustodyAction::Delegate { args, delegate } => if owner_can_move(s) && s.delegate is None {
            Some(
                TokenState {
                    delegate: Some(Delegation { role: granted_role(args), to: delegate }),
                    ..s
                },
            )
        } else {
            None
        },
        CustodyAction::Lock { authority, .. } => if delegated_to(s, authority) && !s.locked
            && !s.deposited {
            Some(TokenState { locked: true, ..s })
        } else {
            None
        },
        CustodyAction::Unlock { authority, .. } => if delegated_to(s, authority) && s.locked {
            Some(TokenState { locked: false, ..s })
        } else {
            None
        },
        CustodyAction::Revoke { args, delegate } => if !s.locked && s.delegate == Some(
            Delegation { role: revoked_role(args), to: delegate },
        ) {
            Some(TokenState { delegate: None, ..s })
        } else {
            None
        },
        CustodyAction::PolicyApprove => if owner_can_move(s) && s.delegate is None {
            Some(
                TokenState {
                    delegate: Some(
                        Delegation { role: TokenDelegateRole::Transfer, to: Party::Escrow },
                    ),
                    ..s
                },
            )
        } else {
            None
        },
        CustodyAction::PolicyLock => if delegated_to(s, Party::Escrow) && !s.locked
            && !s.deposited {
            Some(TokenState { locked: true, ..s })
        } else {
            None
        },
        CustodyAction::PolicyUnlock => if delegated_to(s, Party::Escrow) && s.locked {
            Some(TokenState { locked: false, delegate: None, ..s })
        } else {
            None
        },
    }
}

/// The token after a list of nested calls made in order, or nothing where
/// one of them fails.
pub open spec fn effects(actions: Seq<CustodyAction>, s: TokenState) -> Option<TokenState>
    decreases actions.len(),
{
    if actions.len() == 0 {
        Some(s)
    } else {
        match effect(actions[0], s) {
            Some(next) => effects(actions.drop_first(), next),
            None => None,
        }
    }
}

/// The delegation that fits a token's standard.
pub open spec fn delegate_args_for(standard: TokenStandard) -> DelegateArgs {
    if standard == TokenStandard::ProgrammableNonFungible {
        DelegateArgs::StakingV1 { amount: TOKEN_AMOUNT }
    } else {
        DelegateArgs::StandardV1 { amount: TOKEN_AMOUNT }
    }
}

/// The revocation that fits a token's standard.
pub open spec fn revoke_args_for(standard: TokenStandard) -> RevokeArgs {
    if standard == TokenStandard::ProgrammableNonFungible {
        RevokeArgs::StakingV1
    } else {
        RevokeArgs::StandardV1
    }
}

/// The revocation that fits the delegate's role on record. Only a
/// programmable token has such a record.
pub open spec fn revoke_args_by_role(
    standard: Option<TokenStandard>,
    role: Option<TokenDelegateRole>,
) -> RevokeArgs {
    if is_programmable(standard) {
        match role {
            Some(TokenDelegateRole::Staking) => RevokeArgs::StakingV1,
            Some(TokenDelegateRole::Migration) => RevokeArgs::MigrationV1,
            _ => RevokeArgs::StandardV1,
        }
    } else {
        RevokeArgs::StandardV1
    }
}

/// The nested calls that stake a token, in order.
pub open spec fn stake_plan(variant: CustodyVariant, standard: Option<TokenStandard>) -> Seq<
    CustodyAction,
> {
    match variant {
        CustodyVariant::DirectDeposit => seq![CustodyAction::Deposit { amount: TOKEN_AMOUNT }],
        CustodyVariant::DelegatedLock => match standard {
            Some(known) => seq![
                CustodyAction::Delegate {
                    args: delegate_args_for(known),
                    delegate: Party::Escrow,
                },
                CustodyAction::Lock {
                    authority: Party::Escrow,
                    with_token_record: is_programmable(standard),
                },
            ],
            None => Seq::empty(),
        },
        CustodyVariant::PolicyEnforced => seq![
            CustodyAction::PolicyApprove,
            CustodyAction::PolicyLock,
        ],
    }
}

/// Staking in this way needs the token's standard, and it is not on record.
pub open spec fn stake_undetermined(
    variant: CustodyVariant,
    standard: Option<TokenStandard>,
) -> bool {
    variant == CustodyVariant::DelegatedLock && standard is None
}

/// The nested calls that give a staked token back, in order.
pub open spec fn release_plan(
    route: ReleaseRoute,
    standard: Option<TokenStandard>,
    role: Option<TokenDelegateRole>,
) -> Seq<CustodyAction> {
    match route {
        ReleaseRoute::DirectDeposit => seq![
            CustodyAction::Withdraw { amount: TOKEN_AMOUNT },
            CustodyAction::CloseDeposit,
        ],
        ReleaseRoute::DelegatedLock => match standard {
            Some(known) => seq![
                CustodyAction::Unlock {
                    authority: Party::Escrow,
                    with_token_record: is_programmable(standard),
                },
                CustodyAction::Revoke {
                    args: revoke_args_for(known),
                    delegate: Party::Escrow,
                },
            ],
            None => Seq::empty(),
        },
        ReleaseRoute::DelegatedLockByRole => seq![
            CustodyAction::Unlock {
                authority: Party::Escrow,
                with_token_record: is_programmable(standard),
            },
            CustodyAction::Revoke {
                args: revoke_args_by_role(standard, role),
                delegate: Party::Escrow,
            },
        ],
        ReleaseRoute::PolicyEnforced => seq![CustodyAction::PolicyUnlock],
        ReleaseRoute::Custodial => seq![
            CustodyAction::ReturnTransfer {
                amount: TOKEN_AMOUNT,
                with_token_records: is_programmable(standard),
            },
            CustodyAction::CloseDeposit,
        ],
    }
}

/// Giving back in this way needs the token's standard, and it is not on
/// record.
pub open spec fn release_undetermined(
    route: ReleaseRoute,
    standard: Option<TokenStandard>,
) -> bool {
    route == ReleaseRoute::DelegatedLock && standard is None
}

/// Whether the token is programmable.
pub fn programmable(standard: &Option<TokenStandard>) -> (yes: bool)
    ensures
        yes == is_programmable(*standard),
{
    match standard {
        Some(TokenStandard::ProgrammableNonFungible) => true,
        _ => false,
    }
}

/// The revocation that fits the delegate's role on record.
pub fn choose_revoke_args(
    standard: &Option<TokenStandard>,
    role: &Option<TokenDelegateRole>,
) -> (args: RevokeArgs)
    ensures
        args == revoke_args_by_role(*standard, *role),
{
    if programmable(standard) {
        match role {
            Some(TokenDelegateRole::Staking) => RevokeArgs::StakingV1,
            Some(TokenDelegateRole::Migration) => RevokeArgs::MigrationV1,
            _ => RevokeArgs::StandardV1,
        }
    } else {
        RevokeArgs::StandardV1
    }
}

/// The nested calls that stake a token, in order. Where the way of custody
/// needs the token's standard and none is on record, there are none.
pub fn stake_actions(variant: CustodyVariant, standard: Option<TokenStandard>) -> (out: Result<
    Vec<CustodyAction>,
    StakingError,
>)
    ensures
        match out {
            Ok(actions) => !stake_undetermined(variant, standard) && actions@ == stake_plan(
                variant,
                standard,
            ),
            Err(e) => stake_undetermined(variant, standard) && e
                == StakingError::CouldNotDetermineTokenStandard,
        },
{
    let mut actions: Vec<CustodyAction> = Vec::new();
    match variant {
        CustodyVariant::DirectDeposit => {
            actions.push(CustodyAction::Deposit { amount: TOKEN_AMOUNT });
        },
        CustodyVariant::DelegatedLock => {
            let args = match standard {
                Some(TokenStandard::ProgrammableNonFungible) => DelegateArgs::StakingV1 {
                    amount: TOKEN_AMOUNT,
                },
                Some(_) => DelegateArgs::StandardV1 { amount: TOKEN_AMOUNT },
                None => {
                    return Err(StakingError::CouldNotDetermineTokenStandard);
                },
            };
            actions.push(CustodyAction::Delegate { args, delegate: Party::Escrow });
            actions.push(
                CustodyAction::Lock {
                    authority: Party::Escrow,
                    with_token_record: programmable(&standard),
                },
            );
        },
        CustodyVariant::PolicyEnforced => {
            actions.push(CustodyAction::PolicyApprove);
            actions.push(CustodyAction::PolicyLock);
        },
    }
    assert(actions@ =~= stake_plan(variant, standard));
    Ok(actions)
}

/// The nested calls that give a staked token back, in order. Where the
/// route needs the token's standard and none is on record, there are none.
pub fn release_actions(
    route: ReleaseRoute,
    standard: Option<TokenStandard>,
    role: Option<TokenDelegateRole>,
) -> (out: Result<Vec<CustodyAction>, StakingError>)
    ensures
        match out {
            Ok(actions) => !release_undetermined(route, standard) && actions@ == release_plan(
                route,
                standard,
                role,
            ),
            Err(e) => release_undetermined(route, standard) && e
                == StakingError::CouldNotDetermineTokenStandard,
        },
{
    let mut actions: Vec<CustodyAction> = Vec::new();
    match route {
        ReleaseRoute::DirectDeposit => {
            actions.push(CustodyAction::Withdraw { amount: TOKEN_AMOUNT });
            actions.push(CustodyAction::CloseDeposit);
        },
        ReleaseRoute::DelegatedLock => {
            let args = match standard {
                Some(TokenStandard::ProgrammableNonFungible) => RevokeArgs::StakingV1,
                Some(_) => RevokeArgs::StandardV1,
                None => {
                    return Err(StakingError::CouldNotDetermineTokenStandard);
                },
            };
            actions.push(
                CustodyAction::Unlock {
                    authority: Party::Escrow,
                    with_token_record: programmable(&standard),
                },
            );
            actions.push(CustodyAction::Revoke { args, delegate: Party::Escrow });
        },
        ReleaseRoute::DelegatedLockByRole => {
            actions.push(
                CustodyAction::Unlock {
                    authority: Party::Escrow,
                    with_token_record: programmable(&standard),
                },
            );
            actions.push(
                CustodyAction::Revoke {
                    args: choose_revoke_args(&standard, &role),
                    delegate: Party::Escrow,
                },
            );
        },
        ReleaseRoute::PolicyEnforced => {
            actions.push(CustodyAction::PolicyUnlock);
        },
        ReleaseRoute::Custodial => {
            actions.push(
                CustodyAction::ReturnTransfer {
                    amount: TOKEN_AMOUNT,
                    with_token_records: programmable(&standard),
                },
            );
            actions.push(CustodyAction::CloseDeposit);
        },
    }
    assert(actions@ =~= release_plan(route, standard, role));
    Ok(actions)
}

} // verus!
