use mpl_token_metadata::state::{
    Metadata, TokenMetadataAccount, TokenRecord, MAX_METADATA_LEN, TOKEN_RECORD_SIZE,
};
use staking::custody::{TokenDelegateRole, TokenStandard};
use staking::metadata::{read_delegate_role, read_token_standard, role_to_revoke};

const PNFT: Option<TokenStandard> = Some(TokenStandard::ProgrammableNonFungible);

/// The bytes of a metadata account whose record holds the given standard.
fn metadata_bytes(standard: Option<u8>) -> Vec<u8> {
    let mut d = vec![4u8];
    d.extend([1u8; 32]);
    d.extend([2u8; 32]);
    d.extend(1u32.to_le_bytes());
    d.push(b'a');
    d.extend(0u32.to_le_bytes());
    d.extend(0u32.to_le_bytes());
    d.extend(500u16.to_le_bytes());
    d.push(0);
    d.push(1);
    d.push(1);
    d.push(0);
    match standard {
        Some(s) => {
            d.push(1);
            d.push(s);
        }
        None => d.push(0),
    }
    d.extend([0u8; 4]);
    d.resize(MAX_METADATA_LEN, 0);
    d
}

/// The bytes of a token record that names a delegate in the given role.
fn record_bytes(role: Option<u8>) -> Vec<u8> {
    let mut d = vec![11u8, 254, 1, 0];
    match role {
        Some(r) => {
            d.push(1);
            d.extend([7u8; 32]);
            d.push(1);
            d.push(r);
        }
        None => {
            d.push(0);
            d.push(0);
        }
    }
    d.push(0);
    d.resize(TOKEN_RECORD_SIZE, 0);
    d
}

#[test]
fn the_standard_on_record_is_read() {
    assert_eq!(read_token_standard(&metadata_bytes(Some(0))), Some(Some(TokenStandard::NonFungible)));
    assert_eq!(read_token_standard(&metadata_bytes(Some(1))), Some(Some(TokenStandard::FungibleAsset)));
    assert_eq!(read_token_standard(&metadata_bytes(Some(2))), Some(Some(TokenStandard::Fungible)));
    assert_eq!(
        read_token_standard(&metadata_bytes(Some(3))),
        Some(Some(TokenStandard::NonFungibleEdition))
    );
    assert_eq!(read_token_standard(&metadata_bytes(Some(4))), Some(PNFT));
    assert_eq!(
        read_token_standard(&metadata_bytes(Some(5))),
        Some(Some(TokenStandard::ProgrammableNonFungibleEdition))
    );
    let parsed = Metadata::safe_deserialize(&metadata_bytes(Some(4))).unwrap();
    assert_eq!(
        parsed.token_standard,
        Some(mpl_token_metadata::state::TokenStandard::ProgrammableNonFungible)
    );
    assert_eq!(parsed.data.name, "a");
}

#[test]
fn a_record_without_a_standard_gives_none() {
    assert_eq!(read_token_standard(&metadata_bytes(None)), Some(None));
}

#[test]
fn bytes_that_are_no_metadata_give_nothing() {
    assert_eq!(read_token_standard(&[]), None);
    let mut short = metadata_bytes(Some(4));
    short.pop();
    assert_eq!(read_token_standard(&short), None);
    let mut other = metadata_bytes(Some(4));
    other[0] = 6;
    assert_eq!(read_token_standard(&other), None);
}

#[test]
fn the_role_on_record_is_read_for_a_programmable_token() {
    assert_eq!(read_delegate_role(PNFT, &record_bytes(Some(0))), Some(Some(TokenDelegateRole::Sale)));
    assert_eq!(
        read_delegate_role(PNFT, &record_bytes(Some(1))),
        Some(Some(TokenDelegateRole::Transfer))
    );
    assert_eq!(
        read_delegate_role(PNFT, &record_bytes(Some(2))),
        Some(Some(TokenDelegateRole::Utility))
    );
    assert_eq!(
        read_delegate_role(PNFT, &record_bytes(Some(3))),
        Some(Some(TokenDelegateRole::Staking))
    );
    assert_eq!(
        read_delegate_role(PNFT, &record_bytes(Some(4))),
        Some(Some(TokenDelegateRole::Standard))
    );
    assert_eq!(
        read_delegate_role(PNFT, &record_bytes(Some(5))),
        Some(Some(TokenDelegateRole::LockedTransfer))
    );
    assert_eq!(
        read_delegate_role(PNFT, &record_bytes(Some(6))),
        Some(Some(TokenDelegateRole::Migration))
    );
    assert_eq!(read_delegate_role(PNFT, &record_bytes(None)), Some(None));
    let parsed = TokenRecord::safe_deserialize(&record_bytes(Some(3))).unwrap();
    assert_eq!(parsed.delegate_role, Some(mpl_token_metadata::state::TokenDelegateRole::Staking));
    assert_eq!(parsed.bump, 254);
}

#[test]
fn bytes_that_are_no_token_record_give_nothing() {
    assert_eq!(read_delegate_role(PNFT, &[]), None);
    assert_eq!(read_delegate_role(PNFT, &metadata_bytes(Some(4))), None);
    let mut other = record_bytes(Some(3));
    other[0] = 4;
    assert_eq!(read_delegate_role(PNFT, &other), None);
}

#[test]
fn another_token_has_no_role_on_record() {
    let nft = Some(TokenStandard::NonFungible);
    assert_eq!(read_delegate_role(nft, &record_bytes(Some(3))), Some(None));
    assert_eq!(read_delegate_role(nft, &[]), Some(None));
    assert_eq!(read_delegate_role(None, &[]), Some(None));
    assert_eq!(role_to_revoke(nft, None), Some(None));
    assert_eq!(role_to_revoke(PNFT, None), None);
    assert_eq!(
        role_to_revoke(PNFT, Some(Some(TokenDelegateRole::Migration))),
        Some(Some(TokenDelegateRole::Migration))
    );
}
