//! What the three ways of custody have in common.

use crate::custody::{
    delegated_to, effect, effects, escrow_controls, is_programmable, owner_can_move, owner_holds,
    release_plan, release_undetermined, revoked_role, role_of, stake_plan, stake_undetermined,
    CustodyAction, CustodyVariant, DelegateArgs, Delegation, Party, ReleaseRoute, RevokeArgs,
    TokenDelegateRole, TokenStandard, TokenState, TOKEN_AMOUNT,
};
use vstd::prelude::*;

verus! {

/// A token in its owner's hands.
pub open spec fn free_token() -> TokenState {
    TokenState { deposited: false, deposit_open: false, delegate: None, locked: false }
}

/// The token after it was staked in the given way.
pub open spec fn staked_token(variant: CustodyVariant, standard: Option<TokenStandard>) -> Option<
    TokenState,
> {
    effects(stake_plan(variant, standard), free_token())
}

/// The route gives back what the variant took. A deposited token is also
/// given back by the custodial route.
pub open spec fn route_fits(variant: CustodyVariant, route: ReleaseRoute) -> bool {
    match variant {
        CustodyVariant::DirectDeposit => route == ReleaseRoute::DirectDeposit || route
            == ReleaseRoute::Custodial,
        CustodyVariant::DelegatedLock => route == ReleaseRoute::DelegatedLock || route
            == ReleaseRoute::DelegatedLockByRole,
        CustodyVariant::PolicyEnforced => route == ReleaseRoute::PolicyEnforced,
    }
}

/// The role on record, where the token has such a record, is the role that
/// staking granted.
pub open spec fn role_on_record(
    variant: CustodyVariant,
    standard: Option<TokenStandard>,
    role: Option<TokenDelegateRole>,
) -> bool {
    is_programmable(standard) ==> match staked_token(variant, standard) {
        Some(s) => role == role_of(s),
        None => false,
    }
}

/// The call moves or delegates one token, if it moves or delegates any.
pub open spec fn takes_one_token(action: CustodyAction) -> bool {
    match action {
        CustodyAction::Deposit { amount } => amount == TOKEN_AMOUNT,
        CustodyAction::Withdraw { amount } => amount == TOKEN_AMOUNT,
        CustodyAction::ReturnTransfer { amount, .. } => amount == TOKEN_AMOUNT,
        CustodyAction::Delegate { args, .. } => match args {
            DelegateArgs::StakingV1 { amount } => amount == TOKEN_AMOUNT,
            DelegateArgs::StandardV1 { amount } => amount == TOKEN_AMOUNT,
        },
        _ => true,
    }
}

/// A list of one call has the effect of that call.
pub proof fn lemma_effects_of_one(a: CustodyAction, s: TokenState)
    ensures
        effects(seq![a], s) == effect(a, s),
{
    reveal_with_fuel(effects, 2);
    assert(seq![a].drop_first() =~= Seq::<CustodyAction>::empty());
}

/// A list of two calls has the effect of the second call after the first.
pub proof fn lemma_effects_of_two(a: CustodyAction, b: CustodyAction, s: TokenState)
    ensures
        effects(seq![a, b], s) == match effect(a, s) {
            Some(next) => effect(b, next),
            None => None,
        },
{
    assert(seq![a, b].drop_first() =~= seq![b]);
    if let Some(next) = effect(a, s) {
        lemma_effects_of_one(b, next);
    }
}

/// Two lists of calls made one after the other have the effect of the
/// second list on what the first leaves.
pub proof fn lemma_effects_in_sequence(
    first: Seq<CustodyAction>,
    second: Seq<CustodyAction>,
    s: TokenState,
)
    ensures
        effects(first + second, s) == match effects(first, s) {
            Some(between) => effects(second, between),
            None => None,
        },
    decreases first.len(),
{
    if first.len() == 0 {
        assert(first + second =~= second);
    } else {
        assert((first + second).drop_first() =~= first.drop_first() + second);
        assert((first + second)[0] == first[0]);
        if let Some(next) = effect(first[0], s) {
            lemma_effects_in_sequence(first.drop_first(), second, next);
        }
    }
}

/// After staking, in each of the three ways, every nested call has
/// succeeded, the owner can no longer move the token, and the escrow can
/// bring it back.
pub proof fn lemma_stake_takes_custody(variant: CustodyVariant, standard: Option<TokenStandard>)
    requires
        !stake_undetermined(variant, standard),
    ensures
        staked_token(variant, standard) matches Some(s) && !owner_can_move(s) && escrow_controls(
            s,
        ),
{
    let plan = stake_plan(variant, standard);
    match variant {
        CustodyVariant::DirectDeposit => {
            lemma_effects_of_one(plan[0], free_token());
        },
        CustodyVariant::DelegatedLock => {
            lemma_effects_of_two(plan[0], plan[1], free_token());
            assert(plan =~= seq![plan[0], plan[1]]);
        },
        CustodyVariant::PolicyEnforced => {
            lemma_effects_of_two(plan[0], plan[1], free_token());
            assert(plan =~= seq![plan[0], plan[1]]);
        },
    }
}

/// After unstaking by a route that fits the way the token was staked, every
/// nested call has succeeded and the token is its owner's again: it is in
/// the owner's account and unlocked, the escrow's delegation is revoked,
/// and no deposit account is left. The delegate's role on record is the
/// one that staking granted.
pub proof fn lemma_release_returns_token(
    variant: CustodyVariant,
    route: ReleaseRoute,
    standard: Option<TokenStandard>,
    role: Option<TokenDelegateRole>,
)
    requires
        !stake_undetermined(variant, standard),
        route_fits(variant, route),
        role_on_record(variant, standard, role),
    ensures
        !release_undetermined(route, standard),
        staked_token(variant, standard) matches Some(s) && effects(
            release_plan(route, standard, role),
            s,
        ) == Some(free_token()),
        owner_holds(free_token()),
        owner_can_move(free_token()),
{
    lemma_stake_takes_custody(variant, standard);
    let s = staked_token(variant, standard).unwrap();
    let staking = stake_plan(variant, standard);
    let plan = release_plan(route, standard, role);
    match variant {
        CustodyVariant::DirectDeposit => {
            lemma_effects_of_one(staking[0], free_token());
        },
        CustodyVariant::DelegatedLock => {
            lemma_effects_of_two(staking[0], staking[1], free_token());
            assert(staking =~= seq![staking[0], staking[1]]);
        },
        CustodyVariant::PolicyEnforced => {
            lemma_effects_of_two(staking[0], staking[1], free_token());
            assert(staking =~= seq![staking[0], staking[1]]);
        },
    }
    match route {
        ReleaseRoute::PolicyEnforced => {
            lemma_effects_of_one(plan[0], s);
        },
        _ => {
            lemma_effects_of_two(plan[0], plan[1], s);
            assert(plan =~= seq![plan[0], plan[1]]);
        },
    }
}

/// Staking a token and unstaking it at once leaves the token as it was: the
/// calls of both, made in order, all succeed and end with the token in its
/// owner's hands.
pub proof fn lemma_stake_then_release_is_free(
    variant: CustodyVariant,
    route: ReleaseRoute,
    standard: Option<TokenStandard>,
    role: Option<TokenDelegateRole>,
)
    requires
        !stake_undetermined(variant, standard),
        route_fits(variant, route),
        role_on_record(variant, standard, role),
    ensures
        effects(
            stake_plan(variant, standard) + release_plan(route, standard, role),
            free_token(),
        ) == Some(free_token()),
{
    lemma_release_returns_token(variant, route, standard, role);
    lemma_effects_in_sequence(
        stake_plan(variant, standard),
        release_plan(route, standard, role),
        free_token(),
    );
}

/// No nested call moves or delegates more than the one token.
pub proof fn lemma_plans_take_one_token(
    variant: CustodyVariant,
    route: ReleaseRoute,
    standard: Option<TokenStandard>,
    role: Option<TokenDelegateRole>,
)
    ensures
        forall|i: int|
            0 <= i < stake_plan(variant, standard).len() ==> takes_one_token(
                #[trigger] stake_plan(variant, standard)[i],
            ),
        forall|i: int|
            0 <= i < release_plan(route, standard, role).len() ==> takes_one_token(
                #[trigger] release_plan(route, standard, role)[i],
            ),
{
}

/// The call names the escrow wherever it names a delegate or an authority.
pub open spec fn names_escrow(action: CustodyAction) -> bool {
    match action {
        CustodyAction::Delegate { delegate, .. } => delegate == Party::Escrow,
        CustodyAction::Lock { authority, .. } => authority == Party::Escrow,
        CustodyAction::Unlock { authority, .. } => authority == Party::Escrow,
        CustodyAction::Revoke { delegate, .. } => delegate == Party::Escrow,
        _ => true,
    }
}

/// The escrow is the one delegate and the one authority: staking delegates
/// to the escrow and locks under it, and every route unlocks under the
/// escrow and revokes the escrow's delegation, the unlock first.
pub proof fn lemma_plans_name_the_escrow(
    variant: CustodyVariant,
    route: ReleaseRoute,
    standard: Option<TokenStandard>,
    role: Option<TokenDelegateRole>,
)
    ensures
        forall|i: int|
            0 <= i < stake_plan(variant, standard).len() ==> names_escrow(
                #[trigger] stake_plan(variant, standard)[i],
            ),
        forall|i: int|
            0 <= i < release_plan(route, standard, role).len() ==> names_escrow(
                #[trigger] release_plan(route, standard, role)[i],
            ),
        forall|i: int, j: int|
            0 <= i < release_plan(route, standard, role).len() && 0 <= j < release_plan(
                route,
                standard,
                role,
            ).len() && (#[trigger] release_plan(route, standard, role)[i] is Unlock) && (
            #[trigger] release_plan(route, standard, role)[j] is Revoke) ==> i < j,
{
}

/// A locked token cannot be revoked: the unlock comes first.
pub proof fn lemma_revoke_needs_unlock(s: TokenState, args: RevokeArgs, delegate: Party)
    requires
        s.locked,
    ensures
        effect(CustodyAction::Revoke { args, delegate }, s) is None,
{
}

/// A revocation in another mode than the delegation, or of another party's
/// delegation, fails: the mode is chosen by the delegate's role on record.
pub proof fn lemma_wrong_revoke_fails(s: TokenState, args: RevokeArgs, delegate: Party)
    requires
        s.delegate != Some(Delegation { role: revoked_role(args), to: delegate }),
    ensures
        effect(CustodyAction::Revoke { args, delegate }, s) is None,
{
}

/// Only the party that a token was delegated to locks and unlocks it.
pub proof fn lemma_only_the_delegate_locks(s: TokenState, authority: Party, with_record: bool)
    requires
        !delegated_to(s, authority),
    ensures
        effect(CustodyAction::Lock { authority, with_token_record: with_record }, s) is None,
        effect(CustodyAction::Unlock { authority, with_token_record: with_record }, s) is None,
{
}

/// A token staked through the metadata program or the policy program is
/// delegated to the escrow. Its owner cannot unlock it: only the escrow
/// can.
pub proof fn lemma_owner_cannot_unlock(
    variant: CustodyVariant,
    standard: Option<TokenStandard>,
    with_record: bool,
)
    requires
        variant != CustodyVariant::DirectDeposit,
        !stake_undetermined(variant, standard),
    ensures
        staked_token(variant, standard) matches Some(s) && delegated_to(s, Party::Escrow)
            && s.locked && effect(
            CustodyAction::Unlock { authority: Party::Staker, with_token_record: with_record },
            s,
        ) is None,
{
    lemma_stake_takes_custody(variant, standard);
    let plan = stake_plan(variant, standard);
    lemma_effects_of_two(plan[0], plan[1], free_token());
    assert(plan =~= seq![plan[0], plan[1]]);
}

} // verus!
