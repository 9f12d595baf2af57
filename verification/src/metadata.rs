//! What a token's accounts at the metadata program say of the token: the
//! standard under which it was issued, and the role of its delegate.
//!
//! The caller reads the bytes of the accounts; the metadata program's own
//! code reads the records out of them.

use crate::custody::{TokenDelegateRole, TokenStandard};
use mpl_token_metadata::state::TokenDelegateRole as RecordedRole;
use mpl_token_metadata::state::TokenStandard as RecordedStandard;
use mpl_token_metadata::state::{Metadata, TokenMetadataAccount, TokenRecord};
use vstd::prelude::*;

verus! {

/// The token standard that the bytes of a metadata account record, if
/// they record one; nothing where the bytes are no metadata account.
pub uninterp spec fn metadata_standard(data: Seq<u8>) -> Option<Option<TokenStandard>>;

/// The role of the delegate that the bytes of a token record name, if they
/// name one; nothing where the bytes are no token record.
pub uninterp spec fn record_delegate_role(data: Seq<u8>) -> Option<Option<TokenDelegateRole>>;

/// Calls `mpl_token_metadata::state::Metadata::safe_deserialize` and hands
/// on the `token_standard` of the record. The outcome is trusted to be a
/// function of the bytes alone; nothing else is claimed of it.
#[verifier::external_body]
pub(crate) fn parse_metadata_standard(data: &[u8]) -> (out: Option<Option<TokenStandard>>)
    ensures
        out == metadata_standard(data@),
{
    match Metadata::safe_deserialize(data) {
        Ok(m) => Some(match m.token_standard {
            Some(RecordedStandard::NonFungible) => Some(TokenStandard::NonFungible),
            Some(RecordedStandard::FungibleAsset) => Some(TokenStandard::FungibleAsset),
            Some(RecordedStandard::Fungible) => Some(TokenStandard::Fungible),
            Some(RecordedStandard::NonFungibleEdition) => Some(TokenStandard::NonFungibleEdition),
            Some(RecordedStandard::ProgrammableNonFungible) => Some(TokenStandard::ProgrammableNonFungible),
            Some(RecordedStandard::ProgrammableNonFungibleEdition) => Some(TokenStandard::ProgrammableNonFungibleEdition),
            None => None,
        }),
        Err(_) => None,
    }
}

/// Calls `mpl_token_metadata::state::TokenRecord::safe_deserialize` and
/// hands on the `delegate_role` of the record. The outcome is trusted to
/// be a function of the bytes alone; nothing else is claimed of it.
#[verifier::external_body]
pub(crate) fn parse_delegate_role(data: &[u8]) -> (out: Option<Option<TokenDelegateRole>>)
    ensures
        out == record_delegate_role(data@),
{
    match TokenRecord::safe_deserialize(data) {
        Ok(r) => Some(match r.delegate_role {
            Some(RecordedRole::Sale) => Some(TokenDelegateRole::Sale),
            Some(RecordedRole::Transfer) => Some(TokenDelegateRole::Transfer),
            Some(RecordedRole::Utility) => Some(TokenDelegateRole::Utility),
            Some(RecordedRole::Staking) => Some(TokenDelegateRole::Staking),
            Some(RecordedRole::Standard) => Some(TokenDelegateRole::Standard),
            Some(RecordedRole::LockedTransfer) => Some(TokenDelegateRole::LockedTransfer),
            Some(RecordedRole::Migration) => Some(TokenDelegateRole::Migration),
            None => None,
        }),
        Err(_) => None,
    }
}

/// The delegate's role that unstaking goes by: the one on the token's
/// record where the token is programmable, none otherwise.
pub open spec fn role_for(
    standard: Option<TokenStandard>,
    parsed: Option<Option<TokenDelegateRole>>,
) -> Option<Option<TokenDelegateRole>> {
    if standard == Some(TokenStandard::ProgrammableNonFungible) {
        parsed
    } else {
        Some(None)
    }
}

/// The token standard that the bytes of a metadata account record. The
/// outer value is nothing where the bytes are no metadata account, the
/// inner one where the account records no standard.
pub fn read_token_standard(data: &[u8]) -> (out: Option<Option<TokenStandard>>)
    ensures
        out == metadata_standard(data@),
{
    parse_metadata_standard(data)
}

/// The delegate's role that unstaking a token of `standard` goes by, given
/// what was read from its token record.
pub fn role_to_revoke(
    standard: Option<TokenStandard>,
    parsed: Option<Option<TokenDelegateRole>>,
) -> (out: Option<Option<TokenDelegateRole>>)
    ensures
        out == role_for(standard, parsed),
{
    match standard {
        Some(TokenStandard::ProgrammableNonFungible) => parsed,
        _ => Some(None),
    }
}

/// The role of the delegate of a token of `standard`, read from the bytes
/// of its token record. Only a programmable token has such a record: for
/// another the bytes are not looked at and the role is none. The outer
/// value is nothing where the record of a programmable token cannot be
/// read.
pub fn read_delegate_role(standard: Option<TokenStandard>, data: &[u8]) -> (out: Option<
    Option<TokenDelegateRole>,
>)
    ensures
        out == role_for(standard, record_delegate_role(data@)),
{
    match standard {
        Some(TokenStandard::ProgrammableNonFungible) => role_to_revoke(
            standard,
            parse_delegate_role(data),
        ),
        _ => role_to_revoke(standard, None),
    }
}

} // verus!
