use staking::custody::{
    choose_revoke_args, programmable, release_actions, stake_actions, CustodyAction,
    CustodyVariant, DelegateArgs, Party, ReleaseRoute, RevokeArgs, TokenDelegateRole,
    TokenStandard,
};
use staking::errors::StakingError;

const PNFT: Option<TokenStandard> = Some(TokenStandard::ProgrammableNonFungible);
const NFT: Option<TokenStandard> = Some(TokenStandard::NonFungible);

#[test]
fn deposit_moves_one_token() {
    assert_eq!(
        stake_actions(CustodyVariant::DirectDeposit, None),
        Ok(vec![CustodyAction::Deposit { amount: 1 }])
    );
    assert_eq!(
        release_actions(ReleaseRoute::DirectDeposit, None, None),
        Ok(vec![CustodyAction::Withdraw { amount: 1 }, CustodyAction::CloseDeposit])
    );
}

#[test]
fn a_programmable_token_is_delegated_for_staking_and_locked_with_its_record() {
    assert_eq!(
        stake_actions(CustodyVariant::DelegatedLock, PNFT),
        Ok(vec![
            CustodyAction::Delegate {
                args: DelegateArgs::StakingV1 { amount: 1 },
                delegate: Party::Escrow,
            },
            CustodyAction::Lock { authority: Party::Escrow, with_token_record: true },
        ])
    );
}

#[test]
fn another_token_is_delegated_in_the_standard_way() {
    assert_eq!(
        stake_actions(CustodyVariant::DelegatedLock, NFT),
        Ok(vec![
            CustodyAction::Delegate {
                args: DelegateArgs::StandardV1 { amount: 1 },
                delegate: Party::Escrow,
            },
            CustodyAction::Lock { authority: Party::Escrow, with_token_record: false },
        ])
    );
}

#[test]
fn an_unknown_standard_is_not_guessed() {
    assert_eq!(
        stake_actions(CustodyVariant::DelegatedLock, None),
        Err(StakingError::CouldNotDetermineTokenStandard)
    );
    assert_eq!(
        release_actions(ReleaseRoute::DelegatedLock, None, None),
        Err(StakingError::CouldNotDetermineTokenStandard)
    );
}

#[test]
fn unlock_comes_before_revoke() {
    assert_eq!(
        release_actions(ReleaseRoute::DelegatedLock, PNFT, None),
        Ok(vec![
            CustodyAction::Unlock { authority: Party::Escrow, with_token_record: true },
            CustodyAction::Revoke {
                args: RevokeArgs::StakingV1,
                delegate: Party::Escrow,
            },
        ])
    );
    assert_eq!(
        release_actions(ReleaseRoute::DelegatedLock, NFT, None),
        Ok(vec![
            CustodyAction::Unlock { authority: Party::Escrow, with_token_record: false },
            CustodyAction::Revoke {
                args: RevokeArgs::StandardV1,
                delegate: Party::Escrow,
            },
        ])
    );
}

#[test]
fn the_revocation_follows_the_role_on_record() {
    let staking = Some(TokenDelegateRole::Staking);
    let migration = Some(TokenDelegateRole::Migration);
    let sale = Some(TokenDelegateRole::Sale);
    assert_eq!(choose_revoke_args(&PNFT, &staking), RevokeArgs::StakingV1);
    assert_eq!(choose_revoke_args(&PNFT, &migration), RevokeArgs::MigrationV1);
    assert_eq!(choose_revoke_args(&PNFT, &sale), RevokeArgs::StandardV1);
    assert_eq!(choose_revoke_args(&PNFT, &None), RevokeArgs::StandardV1);
    assert_eq!(choose_revoke_args(&NFT, &staking), RevokeArgs::StandardV1);
    assert_eq!(choose_revoke_args(&None, &migration), RevokeArgs::StandardV1);
    assert_eq!(
        release_actions(ReleaseRoute::DelegatedLockByRole, PNFT, migration),
        Ok(vec![
            CustodyAction::Unlock { authority: Party::Escrow, with_token_record: true },
            CustodyAction::Revoke {
                args: RevokeArgs::MigrationV1,
                delegate: Party::Escrow,
            },
        ])
    );
    assert_eq!(
        release_actions(ReleaseRoute::DelegatedLockByRole, None, None),
        Ok(vec![
            CustodyAction::Unlock { authority: Party::Escrow, with_token_record: false },
            CustodyAction::Revoke {
                args: RevokeArgs::StandardV1,
                delegate: Party::Escrow,
            },
        ])
    );
}

#[test]
fn the_policy_program_approves_locks_and_unlocks() {
    assert_eq!(
        stake_actions(CustodyVariant::PolicyEnforced, None),
        Ok(vec![CustodyAction::PolicyApprove, CustodyAction::PolicyLock])
    );
    assert_eq!(
        release_actions(ReleaseRoute::PolicyEnforced, None, None),
        Ok(vec![CustodyAction::PolicyUnlock])
    );
}

#[test]
fn a_deposited_token_returns_through_the_metadata_program() {
    assert_eq!(
        release_actions(ReleaseRoute::Custodial, PNFT, None),
        Ok(vec![
            CustodyAction::ReturnTransfer { amount: 1, with_token_records: true },
            CustodyAction::CloseDeposit,
        ])
    );
    assert_eq!(
        release_actions(ReleaseRoute::Custodial, NFT, None),
        Ok(vec![
            CustodyAction::ReturnTransfer { amount: 1, with_token_records: false },
            CustodyAction::CloseDeposit,
        ])
    );
}

#[test]
fn only_the_programmable_standard_is_programmable() {
    assert!(programmable(&PNFT));
    assert!(!programmable(&NFT));
    assert!(!programmable(&Some(TokenStandard::ProgrammableNonFungibleEdition)));
    assert!(!programmable(&None));
}
