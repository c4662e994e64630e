use anchor_lang::prelude::Pubkey as ChainKey;
use anchor_lang::AnchorSerialize;
use tiny_spl::identity::{creator_hash, data_hash, derive_identity, leaf_hash};
use tiny_spl::layout::{serialize_creators, serialize_metadata};
use tiny_spl::state::{
    CnftMetadata, Collection, Creator, TokenProgramVersion, TokenStandard, UseMethod, Uses,
};

fn key(seed: u8) -> [u8; 32] {
    let mut bytes = [0u8; 32];
    for (i, b) in bytes.iter_mut().enumerate() {
        *b = seed.wrapping_mul(31).wrapping_add(i as u8);
    }
    bytes
}

fn sample() -> CnftMetadata {
    CnftMetadata {
        name: "1,234,567 ABC".to_string(),
        symbol: "ABC".to_string(),
        uri: "https://metadata.tinys.pl/collection?id=x&amount=1234567".to_string(),
        seller_fee_basis_points: 0,
        primary_sale_happened: false,
        is_mutable: true,
        edition_nonce: None,
        token_standard: Some(TokenStandard::NonFungible),
        collection: Some(Collection { verified: true, key: key(3) }),
        uses: None,
        token_program_version: TokenProgramVersion::Original,
        creators: vec![Creator { address: key(4), verified: true, share: 100 }],
    }
}

fn full() -> CnftMetadata {
    CnftMetadata {
        name: "järn ✓".to_string(),
        symbol: "".to_string(),
        uri: "u".to_string(),
        seller_fee_basis_points: 0x1234,
        primary_sale_happened: true,
        is_mutable: false,
        edition_nonce: Some(254),
        token_standard: Some(TokenStandard::NonFungibleEdition),
        collection: Some(Collection { verified: false, key: key(9) }),
        uses: Some(Uses { use_method: UseMethod::Single, remaining: 7, total: u64::MAX }),
        token_program_version: TokenProgramVersion::Token2022,
        creators: vec![
            Creator { address: key(1), verified: false, share: 40 },
            Creator { address: key(2), verified: true, share: 60 },
        ],
    }
}

fn outside(m: &CnftMetadata) -> mpl_bubblegum::types::MetadataArgs {
    mpl_bubblegum::types::MetadataArgs {
        name: m.name.clone(),
        symbol: m.symbol.clone(),
        uri: m.uri.clone(),
        seller_fee_basis_points: m.seller_fee_basis_points,
        primary_sale_happened: m.primary_sale_happened,
        is_mutable: m.is_mutable,
        edition_nonce: m.edition_nonce,
        token_standard: m.token_standard.map(|s| match s {
            TokenStandard::NonFungible => mpl_bubblegum::types::TokenStandard::NonFungible,
            TokenStandard::FungibleAsset => mpl_bubblegum::types::TokenStandard::FungibleAsset,
            TokenStandard::Fungible => mpl_bubblegum::types::TokenStandard::Fungible,
            TokenStandard::NonFungibleEdition => {
                mpl_bubblegum::types::TokenStandard::NonFungibleEdition
            }
        }),
        collection: m.collection.map(|c| mpl_bubblegum::types::Collection {
            verified: c.verified,
            key: ChainKey::new_from_array(c.key),
        }),
        uses: m.uses.map(|u| mpl_bubblegum::types::Uses {
            use_method: match u.use_method {
                UseMethod::Burn => mpl_bubblegum::types::UseMethod::Burn,
                UseMethod::Multiple => mpl_bubblegum::types::UseMethod::Multiple,
                UseMethod::Single => mpl_bubblegum::types::UseMethod::Single,
            },
            remaining: u.remaining,
            total: u.total,
        }),
        token_program_version: match m.token_program_version {
            TokenProgramVersion::Original => mpl_bubblegum::types::TokenProgramVersion::Original,
            TokenProgramVersion::Token2022 => mpl_bubblegum::types::TokenProgramVersion::Token2022,
        },
        creators: m
            .creators
            .iter()
            .map(|c| mpl_bubblegum::types::Creator {
                address: ChainKey::new_from_array(c.address),
                verified: c.verified,
                share: c.share,
            })
            .collect(),
    }
}

#[test]
fn record_bytes_are_those_of_the_tree_program() {
    for m in [sample(), full()] {
        let expected = outside(&m).try_to_vec().unwrap();
        assert_eq!(serialize_metadata(&m), Ok(expected));
    }
}

#[test]
fn record_bytes_of_a_small_record_byte_by_byte() {
    let m = CnftMetadata {
        name: "ab".to_string(),
        symbol: "".to_string(),
        uri: "é".to_string(),
        seller_fee_basis_points: 258,
        primary_sale_happened: true,
        is_mutable: false,
        edition_nonce: Some(9),
        token_standard: Some(TokenStandard::Fungible),
        collection: None,
        uses: Some(Uses { use_method: UseMethod::Multiple, remaining: 1, total: 256 }),
        token_program_version: TokenProgramVersion::Token2022,
        creators: vec![],
    };
    let mut expected: Vec<u8> = vec![2, 0, 0, 0, b'a', b'b'];
    expected.extend([0, 0, 0, 0]);
    expected.extend([2, 0, 0, 0, 0xc3, 0xa9]);
    expected.extend([2, 1]);
    expected.extend([1, 0]);
    expected.extend([1, 9]);
    expected.extend([1, 2]);
    expected.extend([0]);
    expected.extend([1, 1, 1, 0, 0, 0, 0, 0, 0, 0, 0, 1, 0, 0, 0, 0, 0, 0]);
    expected.extend([1]);
    expected.extend([0, 0, 0, 0]);
    assert_eq!(serialize_metadata(&m), Ok(expected));
}

#[test]
fn creators_bytes_follow_one_another() {
    let m = full();
    let mut expected: Vec<u8> = Vec::new();
    expected.extend(key(1));
    expected.extend([0, 40]);
    expected.extend(key(2));
    expected.extend([1, 60]);
    assert_eq!(serialize_creators(&m.creators), expected);
    assert_eq!(serialize_creators(&vec![]), Vec::<u8>::new());
}

#[test]
fn data_hash_is_that_of_the_tree_program() {
    for m in [sample(), full()] {
        let expected = mpl_bubblegum::hash::hash_metadata(&outside(&m)).unwrap();
        assert_eq!(data_hash(&m), Ok(expected));
    }
}

#[test]
fn creator_hash_is_that_of_the_tree_program() {
    for m in [sample(), full()] {
        let expected = mpl_bubblegum::hash::hash_creators(&outside(&m).creators);
        assert_eq!(creator_hash(&m.creators), expected);
    }
    assert_eq!(creator_hash(&vec![]), mpl_bubblegum::hash::hash_creators(&[]));
}

#[test]
fn digest_of_nothing_is_the_known_keccak_value() {
    let expected: [u8; 32] = [
        0xc5, 0xd2, 0x46, 0x01, 0x86, 0xf7, 0x23, 0x3c, 0x92, 0x7e, 0x7d, 0xb2, 0xdc, 0xc7, 0x03,
        0xc0, 0xe5, 0x00, 0xb6, 0x53, 0xca, 0x82, 0x27, 0x3b, 0x7b, 0xfa, 0xd8, 0x04, 0x5d, 0x85,
        0xa4, 0x70,
    ];
    assert_eq!(creator_hash(&vec![]), expected);
}

#[test]
fn identity_is_that_of_the_tree_program() {
    let tree = key(11);
    let owner = key(12);
    let delegate = key(13);
    for (m, nonce) in [(sample(), 0u64), (full(), 0x0102030405060708u64)] {
        let identity = derive_identity(&tree, nonce, &owner, &delegate, &m).unwrap();
        let asset_id =
            mpl_bubblegum::utils::get_asset_id(&ChainKey::new_from_array(tree), nonce);
        assert_eq!(identity.asset_id, asset_id.to_bytes());
        assert_ne!(identity.asset_id, tree);
        let schema = mpl_bubblegum::types::LeafSchema::V1 {
            id: asset_id,
            owner: ChainKey::new_from_array(owner),
            delegate: ChainKey::new_from_array(delegate),
            nonce,
            data_hash: mpl_bubblegum::hash::hash_metadata(&outside(&m)).unwrap(),
            creator_hash: mpl_bubblegum::hash::hash_creators(&outside(&m).creators),
        };
        assert_eq!(identity.leaf_hash, schema.hash());
        assert_eq!(identity.data_hash, schema.data_hash());
        assert_eq!(identity.creator_hash, schema.creator_hash());
        assert_eq!(
            leaf_hash(
                &identity.asset_id,
                &owner,
                &delegate,
                nonce,
                &identity.data_hash,
                &identity.creator_hash
            ),
            identity.leaf_hash
        );
    }
}

#[test]
fn identity_is_the_same_for_the_same_inputs() {
    let a = derive_identity(&key(1), 5, &key(2), &key(3), &sample()).unwrap();
    let b = derive_identity(&key(1), 5, &key(2), &key(3), &sample()).unwrap();
    assert_eq!(a.asset_id, b.asset_id);
    assert_eq!(a.leaf_hash, b.leaf_hash);
    assert_eq!(a.data_hash, b.data_hash);
    assert_eq!(a.creator_hash, b.creator_hash);
}

#[test]
fn identity_changes_with_each_input() {
    let base = derive_identity(&key(1), 5, &key(2), &key(3), &sample()).unwrap();
    let other_tree = derive_identity(&key(9), 5, &key(2), &key(3), &sample()).unwrap();
    assert_ne!(base.asset_id, other_tree.asset_id);
    assert_ne!(base.leaf_hash, other_tree.leaf_hash);
    assert_eq!(base.data_hash, other_tree.data_hash);
    let other_nonce = derive_identity(&key(1), 6, &key(2), &key(3), &sample()).unwrap();
    assert_ne!(base.asset_id, other_nonce.asset_id);
    assert_ne!(base.leaf_hash, other_nonce.leaf_hash);
    let other_owner = derive_identity(&key(1), 5, &key(8), &key(3), &sample()).unwrap();
    assert_eq!(base.asset_id, other_owner.asset_id);
    assert_ne!(base.leaf_hash, other_owner.leaf_hash);
    let other_delegate = derive_identity(&key(1), 5, &key(2), &key(8), &sample()).unwrap();
    assert_ne!(base.leaf_hash, other_delegate.leaf_hash);
    let mut changed = sample();
    changed.uri = "https://metadata.tinys.pl/collection?id=x&amount=1234568".to_string();
    let other_record = derive_identity(&key(1), 5, &key(2), &key(3), &changed).unwrap();
    assert_ne!(base.data_hash, other_record.data_hash);
    assert_ne!(base.leaf_hash, other_record.leaf_hash);
    assert_eq!(base.creator_hash, other_record.creator_hash);
    let mut other_creator = sample();
    other_creator.creators[0].share = 99;
    let changed_creator = derive_identity(&key(1), 5, &key(2), &key(3), &other_creator).unwrap();
    assert_ne!(base.creator_hash, changed_creator.creator_hash);
    assert_ne!(base.data_hash, changed_creator.data_hash);
}
