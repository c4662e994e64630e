use vstd::prelude::*;

verus! {

/// Why an operation was rejected.
#[derive(Clone, Copy, Debug, PartialEq, Eq, Structural)]
pub enum TinySplError {
    /// The account that should receive the collection mint already holds data.
    MintAccountNotEmpty,
    /// The account that should receive the collection metadata already holds data.
    MetadataAccountNotEmpty,
    /// The account that should receive the master edition already holds data.
    MasterEditionAccountNotEmpty,
    /// Neither the owner nor the delegate of the leaf signed.
    LeafAuthorityMustSign,
    /// The record names another collection than the one the operation runs in.
    CollectionMismatch,
    /// The asset id handed in is not the one that tree and nonce give.
    AssetIdMismatch,
    /// The destination amounts hold a zero or do not add up to the source amount.
    InvalidSplitAmounts,
    /// An asset id occurs twice among the leaves to combine.
    CannotCombineSameAsset,
    /// The parallel lists of a combination differ in length, or the proof
    /// boundaries do not cut the proof path into consecutive segments.
    InvalidCombineParameters,
    /// A sum of amounts does not fit in 64 bits.
    ArithmeticOverflow,
    /// The collection is not open for minting, or the signer is not its mint
    /// authority.
    InvalidMintAuthority,
    /// A text of the record, or its list of creators, is longer than the byte
    /// layout of a record can count.
    MetadataTooLong,
}

} // verus!
