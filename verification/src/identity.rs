//! The hashes that identify a leaf: asset id, data hash, creator hash and leaf
//! hash.

use vstd::prelude::*;
use crate::error::TinySplError;
use crate::keys::Pubkey;
use crate::layout_laws::{lemma_cut, lemma_le_bytes_len, lemma_metadata_bytes_injective};
use crate::layout::{
    creators_bytes, le_bytes, metadata_bytes, push_bytes, push_le_bytes, serializable,
    serialize_creators, serialize_metadata,
};
use crate::state::{CnftMetadata, CnftMetadataView, Creator};

verus! {

/// The Keccak-256 digest of a sequence of bytes.
pub uninterp spec fn keccak256(data: Seq<u8>) -> Seq<u8>;

/// The asset id that the tree program gives to the leaf of `tree` with
/// sequence number `nonce`.
pub uninterp spec fn asset_id_of(tree: Seq<u8>, nonce: u64) -> Seq<u8>;

/// Calls `keccak::hashv` of the Solana program library on one slice, `data`.
///
/// The contract claims that the 32 bytes returned are a function of the bytes
/// of `data` alone, and gives that function the name `keccak256`. Nothing is
/// claimed of how the digest is computed.
#[verifier::external_body]
fn keccak(data: &[u8]) -> (digest: [u8; 32])
    ensures
        digest@ == keccak256(data@),
{
    anchor_lang::solana_program::keccak::hashv(&[data]).to_bytes()
}

/// Calls `mpl_bubblegum::utils::get_asset_id`, which searches the program
/// address derived from the text `asset`, the tree and the nonce.
///
/// The contract claims that the address returned is a function of the tree's
/// bytes and the nonce alone, and gives that function the name `asset_id_of`.
/// The search tries 255 bump seeds and the outside function panics if none of
/// them gives an address off the curve; no tree and nonce are known for which
/// that happens.
#[verifier::external_body]
fn asset_id(tree: &Pubkey, nonce: u64) -> (id: Pubkey)
    ensures
        id@ == asset_id_of(tree@, nonce),
{
    let tree = anchor_lang::prelude::Pubkey::new_from_array(*tree);
    mpl_bubblegum::utils::get_asset_id(&tree, nonce).to_bytes()
}

/// The version byte that opens the bytes of a leaf.
pub const LEAF_VERSION: u8 = 1;

/// The data hash of a record: the digest of the record's bytes, followed by
/// the fee in two bytes, digested again.
pub open spec fn data_hash_of(metadata: CnftMetadataView) -> Seq<u8> {
    keccak256(
        keccak256(metadata_bytes(metadata)) + le_bytes(
            metadata.seller_fee_basis_points as nat,
            2,
        ),
    )
}

/// The creator hash of a record: the digest of its creators' bytes.
pub open spec fn creator_hash_of(creators: Seq<Creator>) -> Seq<u8> {
    keccak256(creators_bytes(creators))
}

/// The bytes of a leaf, of which the leaf hash is the digest.
pub open spec fn leaf_bytes(
    asset_id: Seq<u8>,
    owner: Seq<u8>,
    delegate: Seq<u8>,
    nonce: u64,
    data_hash: Seq<u8>,
    creator_hash: Seq<u8>,
) -> Seq<u8> {
    seq![LEAF_VERSION] + asset_id + owner + delegate + le_bytes(nonce as nat, 8) + data_hash
        + creator_hash
}

/// The leaf hash of a record held by `owner` and `delegate` at `nonce` of
/// `tree`.
pub open spec fn leaf_hash_of(
    tree: Seq<u8>,
    nonce: u64,
    owner: Seq<u8>,
    delegate: Seq<u8>,
    metadata: CnftMetadataView,
) -> Seq<u8> {
    keccak256(
        leaf_bytes(
            asset_id_of(tree, nonce),
            owner,
            delegate,
            nonce,
            data_hash_of(metadata),
            creator_hash_of(metadata.creators),
        ),
    )
}

/// What identifies a leaf.
#[derive(Clone, Copy, Debug, PartialEq, Eq)]
pub struct LeafIdentity {
    pub asset_id: Pubkey,
    pub leaf_hash: [u8; 32],
    pub data_hash: [u8; 32],
    pub creator_hash: [u8; 32],
}

impl LeafIdentity {
    /// This is the identity of the leaf that holds `metadata` for `owner` and
    /// `delegate` at `nonce` of `tree`.
    pub open spec fn identifies(
        self,
        tree: Pubkey,
        nonce: u64,
        owner: Pubkey,
        delegate: Pubkey,
        metadata: CnftMetadataView,
    ) -> bool {
        &&& self.asset_id@ == asset_id_of(tree@, nonce)
        &&& self.data_hash@ == data_hash_of(metadata)
        &&& self.creator_hash@ == creator_hash_of(metadata.creators)
        &&& self.leaf_hash@ == leaf_hash_of(tree@, nonce, owner@, delegate@, metadata)
    }
}

/// The data hash of a record; `MetadataTooLong` where the record has no bytes.
pub fn data_hash(metadata: &CnftMetadata) -> (result: Result<[u8; 32], TinySplError>)
    ensures
        result is Ok <==> serializable(metadata@),
        result matches Ok(hash) ==> hash@ == data_hash_of(metadata@),
        result matches Err(e) ==> e == TinySplError::MetadataTooLong,
{
    let bytes = serialize_metadata(metadata)?;
    let inner = keccak(bytes.as_slice());
    let mut outer: Vec<u8> = Vec::new();
    push_bytes(&mut outer, inner.as_slice());
    push_le_bytes(&mut outer, metadata.seller_fee_basis_points as u64, 2);
    assert(outer@ =~= keccak256(metadata_bytes(metadata@)) + le_bytes(
        metadata@.seller_fee_basis_points as nat,
        2,
    ));
    Ok(keccak(outer.as_slice()))
}

/// The creator hash of a list of creators.
pub fn creator_hash(creators: &Vec<Creator>) -> (hash: [u8; 32])
    ensures
        hash@ == creator_hash_of(creators@),
{
    let bytes = serialize_creators(creators);
    keccak(bytes.as_slice())
}

/// The digest of a leaf's bytes.
pub fn leaf_hash(
    asset_id: &Pubkey,
    owner: &Pubkey,
    delegate: &Pubkey,
    nonce: u64,
    data_hash: &[u8; 32],
    creator_hash: &[u8; 32],
) -> (hash: [u8; 32])
    ensures
        hash@ == keccak256(
            leaf_bytes(asset_id@, owner@, delegate@, nonce, data_hash@, creator_hash@),
        ),
{
    let mut bytes: Vec<u8> = Vec::new();
    bytes.push(LEAF_VERSION);
    push_bytes(&mut bytes, asset_id.as_slice());
    push_bytes(&mut bytes, owner.as_slice());
    push_bytes(&mut bytes, delegate.as_slice());
    push_le_bytes(&mut bytes, nonce, 8);
    push_bytes(&mut bytes, data_hash.as_slice());
    push_bytes(&mut bytes, creator_hash.as_slice());
    assert(bytes@ =~= leaf_bytes(asset_id@, owner@, delegate@, nonce, data_hash@, creator_hash@));
    keccak(bytes.as_slice())
}

/// Derives the identity of the leaf that holds `metadata` for `owner` and
/// `delegate` at `nonce` of `tree`.
///
/// Fails with `MetadataTooLong` exactly when the record has no bytes; nothing
/// else is asked of the record.
pub fn derive_identity(
    tree: &Pubkey,
    nonce: u64,
    owner: &Pubkey,
    delegate: &Pubkey,
    metadata: &CnftMetadata,
) -> (result: Result<LeafIdentity, TinySplError>)
    ensures
        result is Ok <==> serializable(metadata@),
        result matches Ok(identity) ==> identity.identifies(
            *tree,
            nonce,
            *owner,
            *delegate,
            metadata@,
        ),
        result matches Err(e) ==> e == TinySplError::MetadataTooLong,
{
    let data_hash = data_hash(metadata)?;
    let creator_hash = creator_hash(&metadata.creators);
    let asset_id = asset_id(tree, nonce);
    let leaf_hash = leaf_hash(&asset_id, owner, delegate, nonce, &data_hash, &creator_hash);
    Ok(LeafIdentity { asset_id, leaf_hash, data_hash, creator_hash })
}

/// Two identities of one leaf are the same: the hashes are functions of the
/// tree, the nonce, the holders and the record.
pub proof fn lemma_identity_unique(
    a: LeafIdentity,
    b: LeafIdentity,
    tree: Pubkey,
    nonce: u64,
    owner: Pubkey,
    delegate: Pubkey,
    metadata: CnftMetadataView,
)
    requires
        a.identifies(tree, nonce, owner, delegate, metadata),
        b.identifies(tree, nonce, owner, delegate, metadata),
    ensures
        a == b,
{
    assert(a.asset_id =~= b.asset_id);
    assert(a.leaf_hash =~= b.leaf_hash);
    assert(a.data_hash =~= b.data_hash);
    assert(a.creator_hash =~= b.creator_hash);
}

/// Records that differ have different data hashes, unless two different
/// sequences of bytes share their Keccak digest: a change in any field of a
/// record changes its bytes, and the bytes go into the digest.
pub proof fn lemma_data_hash_binds_record(a: CnftMetadataView, b: CnftMetadataView)
    requires
        serializable(a),
        serializable(b),
        a != b,
        data_hash_of(a) == data_hash_of(b),
    ensures
        exists|x: Seq<u8>, y: Seq<u8>| x != y && keccak256(x) == keccak256(y),
{
    let bytes_a = metadata_bytes(a);
    let bytes_b = metadata_bytes(b);
    if bytes_a == bytes_b {
        lemma_metadata_bytes_injective(a, b);
    }
    let inner_a = keccak256(bytes_a) + le_bytes(a.seller_fee_basis_points as nat, 2);
    let inner_b = keccak256(bytes_b) + le_bytes(b.seller_fee_basis_points as nat, 2);
    if keccak256(bytes_a) == keccak256(bytes_b) {
        assert(bytes_a != bytes_b && keccak256(bytes_a) == keccak256(bytes_b));
    } else {
        lemma_le_bytes_len(a.seller_fee_basis_points as nat, 2);
        lemma_le_bytes_len(b.seller_fee_basis_points as nat, 2);
        if inner_a == inner_b {
            assert(inner_a.len() == keccak256(bytes_a).len() + 2);
            assert(inner_b.len() == keccak256(bytes_b).len() + 2);
            lemma_cut(
                keccak256(bytes_a),
                le_bytes(a.seller_fee_basis_points as nat, 2),
                keccak256(bytes_b),
                le_bytes(b.seller_fee_basis_points as nat, 2),
            );
        }
        assert(inner_a != inner_b && keccak256(inner_a) == keccak256(inner_b));
    }
}

} // verus!
