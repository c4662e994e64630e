use anchor_lang::prelude::Pubkey as ChainKey;
use tiny_spl::encoder::get_tiny_spl_metadata;
use tiny_spl::identity::derive_identity;
use tiny_spl::state::{CnftMetadata, Collection};
use tiny_spl::verify::{verify_cnft_metadata, Party};
use tiny_spl::TinySplError;

fn key(seed: u8) -> [u8; 32] {
    let mut bytes = [seed; 32];
    bytes[0] = 200;
    bytes
}

fn record() -> CnftMetadata {
    get_tiny_spl_metadata("ABC".to_string(), 900, key(1), key(2))
}

fn signer(seed: u8) -> Party {
    Party { key: key(seed), is_signer: true }
}

fn bystander(seed: u8) -> Party {
    Party { key: key(seed), is_signer: false }
}

#[test]
fn leaf_is_refused_when_nobody_signed() {
    let result = verify_cnft_metadata(
        [7; 32],
        &record(),
        3,
        4,
        &key(5),
        &bystander(6),
        &bystander(7),
        &key(1),
    );
    assert_eq!(result, Err(TinySplError::LeafAuthorityMustSign));
}

#[test]
fn leaf_is_refused_when_nobody_signed_whatever_else_is_wrong() {
    let mut m = record();
    m.collection = None;
    let result = verify_cnft_metadata(
        [7; 32],
        &m,
        3,
        4,
        &key(5),
        &bystander(6),
        &bystander(7),
        &key(9),
    );
    assert_eq!(result, Err(TinySplError::LeafAuthorityMustSign));
}

#[test]
fn leaf_of_another_collection_is_refused() {
    let result = verify_cnft_metadata(
        [7; 32],
        &record(),
        3,
        4,
        &key(5),
        &signer(6),
        &bystander(7),
        &key(9),
    );
    assert_eq!(result, Err(TinySplError::CollectionMismatch));
}

#[test]
fn leaf_without_a_collection_is_refused() {
    let mut m = record();
    m.collection = None;
    let result = verify_cnft_metadata(
        [7; 32],
        &m,
        3,
        4,
        &key(5),
        &signer(6),
        &bystander(7),
        &key(1),
    );
    assert_eq!(result, Err(TinySplError::CollectionMismatch));
}

#[test]
fn leaf_of_an_unverified_collection_entry_is_still_matched_by_key() {
    let mut m = record();
    m.collection = Some(Collection { verified: false, key: key(1) });
    let result = verify_cnft_metadata(
        [7; 32],
        &m,
        3,
        4,
        &key(5),
        &signer(6),
        &bystander(7),
        &key(1),
    );
    assert!(result.is_ok());
}

#[test]
fn owner_or_delegate_may_sign() {
    for (owner, delegate) in [
        (signer(6), bystander(7)),
        (bystander(6), signer(7)),
        (signer(6), signer(7)),
    ] {
        let check =
            verify_cnft_metadata([7; 32], &record(), 3, 4, &key(5), &owner, &delegate, &key(1))
                .unwrap();
        let identity = derive_identity(&key(5), 3, &key(6), &key(7), &record()).unwrap();
        assert_eq!(check.asset_id, identity.asset_id);
        assert_eq!(check.data_hash, identity.data_hash);
        assert_eq!(check.creator_hash, identity.creator_hash);
        assert_eq!(check.request.leaf, identity.leaf_hash);
        assert_eq!(check.request.merkle_tree, key(5));
        assert_eq!(check.request.root, [7; 32]);
        assert_eq!(check.request.index, 4);
    }
}

#[test]
fn request_carries_the_leaf_hash_of_the_tree_program() {
    let m = record();
    let check = verify_cnft_metadata(
        [7; 32],
        &m,
        3,
        4,
        &key(5),
        &signer(6),
        &bystander(7),
        &key(1),
    )
    .unwrap();
    let outside = mpl_bubblegum::types::MetadataArgs {
        name: m.name.clone(),
        symbol: m.symbol.clone(),
        uri: m.uri.clone(),
        seller_fee_basis_points: 0,
        primary_sale_happened: false,
        is_mutable: true,
        edition_nonce: None,
        token_standard: Some(mpl_bubblegum::types::TokenStandard::NonFungible),
        collection: Some(mpl_bubblegum::types::Collection {
            verified: true,
            key: ChainKey::new_from_array(key(1)),
        }),
        uses: None,
        token_program_version: mpl_bubblegum::types::TokenProgramVersion::Original,
        creators: vec![mpl_bubblegum::types::Creator {
            address: ChainKey::new_from_array(key(2)),
            verified: true,
            share: 100,
        }],
    };
    let schema = mpl_bubblegum::types::LeafSchema::V1 {
        id: mpl_bubblegum::utils::get_asset_id(&ChainKey::new_from_array(key(5)), 3),
        owner: ChainKey::new_from_array(key(6)),
        delegate: ChainKey::new_from_array(key(7)),
        nonce: 3,
        data_hash: mpl_bubblegum::hash::hash_metadata(&outside).unwrap(),
        creator_hash: mpl_bubblegum::hash::hash_creators(&outside.creators),
    };
    assert_eq!(check.request.leaf, schema.hash());
    assert_eq!(check.asset_id, schema.id().to_bytes());
    assert_eq!(check.data_hash, schema.data_hash());
    assert_eq!(check.creator_hash, schema.creator_hash());
}
