//! The byte layout of a record, as the tree service reads it.
//!
//! Fields follow one another in the order of their declaration. A text is its
//! UTF-8 length in four bytes and then its bytes, a number is little-endian in
//! its own width, a truth value is one byte, an optional field is a tag byte
//! and then the field where it is present, a variant is its position in one
//! byte, and a list is its length in four bytes and then its items.

use vstd::prelude::*;
use vstd::utf8::encode_utf8;
use crate::error::TinySplError;
use crate::state::{
    CnftMetadata, CnftMetadataView, Collection, Creator, TokenProgramVersion, TokenStandard,
    UseMethod, Uses,
};

verus! {

/// The `width` low bytes of `value`, lowest first.
pub open spec fn le_bytes(value: nat, width: nat) -> Seq<u8>
    decreases width,
{
    if width == 0 {
        Seq::empty()
    } else {
        seq![(value % 256) as u8] + le_bytes(value / 256, (width - 1) as nat)
    }
}

/// One byte for a truth value.
pub open spec fn bool_byte(b: bool) -> u8 {
    if b {
        1
    } else {
        0
    }
}

/// A text: the length of its UTF-8 form in four bytes, then that form.
pub open spec fn text_bytes(text: Seq<char>) -> Seq<u8> {
    le_bytes(encode_utf8(text).len(), 4) + encode_utf8(text)
}

/// The position of a token standard among its variants.
pub open spec fn token_standard_byte(standard: TokenStandard) -> u8 {
    match standard {
        TokenStandard::NonFungible => 0,
        TokenStandard::FungibleAsset => 1,
        TokenStandard::Fungible => 2,
        TokenStandard::NonFungibleEdition => 3,
    }
}

/// The position of a token program version among its variants.
pub open spec fn token_program_version_byte(version: TokenProgramVersion) -> u8 {
    match version {
        TokenProgramVersion::Original => 0,
        TokenProgramVersion::Token2022 => 1,
    }
}

/// The position of a use method among its variants.
pub open spec fn use_method_byte(method: UseMethod) -> u8 {
    match method {
        UseMethod::Burn => 0,
        UseMethod::Multiple => 1,
        UseMethod::Single => 2,
    }
}

/// An optional edition nonce.
pub open spec fn edition_nonce_bytes(nonce: Option<u8>) -> Seq<u8> {
    match nonce {
        None => seq![0u8],
        Some(n) => seq![1u8, n],
    }
}

/// An optional token standard.
pub open spec fn token_standard_bytes(standard: Option<TokenStandard>) -> Seq<u8> {
    match standard {
        None => seq![0u8],
        Some(s) => seq![1u8, token_standard_byte(s)],
    }
}

/// An optional collection: the flag, then the 32 bytes of the key.
pub open spec fn collection_bytes(collection: Option<Collection>) -> Seq<u8> {
    match collection {
        None => seq![0u8],
        Some(c) => seq![1u8, bool_byte(c.verified)] + c.key@,
    }
}

/// Optional uses: the method, then the two counts in eight bytes each.
pub open spec fn uses_bytes(uses: Option<Uses>) -> Seq<u8> {
    match uses {
        None => seq![0u8],
        Some(u) => seq![1u8, use_method_byte(u.use_method)] + le_bytes(u.remaining as nat, 8)
            + le_bytes(u.total as nat, 8),
    }
}

/// One creator: the 32 bytes of the address, the flag, the share.
pub open spec fn creator_bytes(creator: Creator) -> Seq<u8> {
    creator.address@ + seq![bool_byte(creator.verified), creator.share]
}

/// The creators one after another.
pub open spec fn creators_bytes(creators: Seq<Creator>) -> Seq<u8>
    decreases creators.len(),
{
    if creators.len() == 0 {
        Seq::empty()
    } else {
        creators_bytes(creators.drop_last()) + creator_bytes(creators.last())
    }
}

/// Every length that the layout writes fits in its four bytes.
pub open spec fn serializable(metadata: CnftMetadataView) -> bool {
    &&& encode_utf8(metadata.name).len() <= u32::MAX
    &&& encode_utf8(metadata.symbol).len() <= u32::MAX
    &&& encode_utf8(metadata.uri).len() <= u32::MAX
    &&& metadata.creators.len() <= u32::MAX
}

/// The bytes of a record.
pub open spec fn metadata_bytes(metadata: CnftMetadataView) -> Seq<u8> {
    text_bytes(metadata.name) + text_bytes(metadata.symbol) + text_bytes(metadata.uri)
        + le_bytes(metadata.seller_fee_basis_points as nat, 2)
        + seq![bool_byte(metadata.primary_sale_happened), bool_byte(metadata.is_mutable)]
        + edition_nonce_bytes(metadata.edition_nonce)
        + token_standard_bytes(metadata.token_standard)
        + collection_bytes(metadata.collection)
        + uses_bytes(metadata.uses)
        + seq![token_program_version_byte(metadata.token_program_version)]
        + le_bytes(metadata.creators.len(), 4)
        + creators_bytes(metadata.creators)
}

/// Appends the `width` low bytes of `value`, lowest first.
pub(crate) fn push_le_bytes(out: &mut Vec<u8>, value: u64, width: usize)
    requires
        width <= 8,
    ensures
        final(out)@ == old(out)@ + le_bytes(value as nat, width as nat),
{
    let mut rest: u64 = value;
    let mut written: usize = 0;
    while written < width
        invariant
            0 <= written <= width,
            old(out)@ + le_bytes(value as nat, width as nat) == out@ + le_bytes(
                rest as nat,
                (width - written) as nat,
            ),
        decreases width - written,
    {
        let low: u8 = (rest % 256) as u8;
        proof {
            let tail = le_bytes((rest / 256) as nat, (width - written - 1) as nat);
            assert(le_bytes(rest as nat, (width - written) as nat) == seq![low] + tail);
            assert(out@ + (seq![low] + tail) =~= out@.push(low) + tail);
        }
        out.push(low);
        rest = rest / 256;
        written += 1;
    }
    assert(out@ + le_bytes(rest as nat, 0) =~= out@);
}

/// Appends `bytes` as they are.
pub(crate) fn push_bytes(out: &mut Vec<u8>, bytes: &[u8])
    ensures
        final(out)@ == old(out)@ + bytes@,
{
    let mut i: usize = 0;
    while i < bytes.len()
        invariant
            0 <= i <= bytes.len(),
            out@ == old(out)@ + bytes@.take(i as int),
        decreases bytes.len() - i,
    {
        out.push(bytes[i]);
        assert(bytes@.take(i + 1) =~= bytes@.take(i as int).push(bytes@[i as int]));
        i += 1;
    }
    assert(bytes@.take(i as int) =~= bytes@);
}

/// Appends a text, unless its UTF-8 form is longer than four bytes can count.
pub(crate) fn push_text(out: &mut Vec<u8>, text: &str) -> (written: bool)
    ensures
        written <==> encode_utf8(text@).len() <= u32::MAX,
        written ==> final(out)@ == old(out)@ + text_bytes(text@),
        !written ==> final(out)@ == old(out)@,
{
    let bytes = text.as_bytes();
    if bytes.len() > u32::MAX as usize {
        return false;
    }
    push_le_bytes(out, bytes.len() as u64, 4);
    push_bytes(out, bytes);
    assert(out@ =~= old(out)@ + text_bytes(text@));
    true
}

/// The byte of a truth value.
pub(crate) fn bool_to_byte(b: bool) -> (byte: u8)
    ensures
        byte == bool_byte(b),
{
    if b {
        1
    } else {
        0
    }
}

/// Appends one creator.
pub(crate) fn push_creator(out: &mut Vec<u8>, creator: &Creator)
    ensures
        final(out)@ == old(out)@ + creator_bytes(*creator),
{
    push_bytes(out, creator.address.as_slice());
    out.push(bool_to_byte(creator.verified));
    out.push(creator.share);
    assert(out@ =~= old(out)@ + creator_bytes(*creator));
}

/// The bytes that the creator hash is taken of: the creators one after another.
pub fn serialize_creators(creators: &Vec<Creator>) -> (bytes: Vec<u8>)
    ensures
        bytes@ == creators_bytes(creators@),
{
    let mut out: Vec<u8> = Vec::new();
    let mut i: usize = 0;
    while i < creators.len()
        invariant
            0 <= i <= creators.len(),
            out@ == creators_bytes(creators@.take(i as int)),
        decreases creators.len() - i,
    {
        assert(creators@.take(i + 1).drop_last() =~= creators@.take(i as int));
        push_creator(&mut out, &creators[i]);
        i += 1;
    }
    assert(creators@.take(i as int) =~= creators@);
    out
}

/// Appends an optional edition nonce.
fn push_edition_nonce(out: &mut Vec<u8>, nonce: Option<u8>)
    ensures
        final(out)@ == old(out)@ + edition_nonce_bytes(nonce),
{
    match nonce {
        None => {
            out.push(0);
        },
        Some(n) => {
            out.push(1);
            out.push(n);
        },
    }
    assert(out@ =~= old(out)@ + edition_nonce_bytes(nonce));
}

/// Appends an optional token standard.
fn push_token_standard(out: &mut Vec<u8>, standard: Option<TokenStandard>)
    ensures
        final(out)@ == old(out)@ + token_standard_bytes(standard),
{
    match standard {
        None => {
            out.push(0);
        },
        Some(s) => {
            out.push(1);
            out.push(
                match s {
                    TokenStandard::NonFungible => 0,
                    TokenStandard::FungibleAsset => 1,
                    TokenStandard::Fungible => 2,
                    TokenStandard::NonFungibleEdition => 3,
                },
            );
        },
    }
    assert(out@ =~= old(out)@ + token_standard_bytes(standard));
}

/// Appends an optional collection.
fn push_collection(out: &mut Vec<u8>, collection: &Option<Collection>)
    ensures
        final(out)@ == old(out)@ + collection_bytes(*collection),
{
    match collection {
        None => {
            out.push(0);
        },
        Some(c) => {
            out.push(1);
            out.push(bool_to_byte(c.verified));
            push_bytes(out, c.key.as_slice());
        },
    }
    assert(out@ =~= old(out)@ + collection_bytes(*collection));
}

/// Appends optional uses.
fn push_uses(out: &mut Vec<u8>, uses: &Option<Uses>)
    ensures
        final(out)@ == old(out)@ + uses_bytes(*uses),
{
    match uses {
        None => {
            out.push(0);
        },
        Some(u) => {
            out.push(1);
            out.push(
                match u.use_method {
                    UseMethod::Burn => 0,
                    UseMethod::Multiple => 1,
                    UseMethod::Single => 2,
                },
            );
            push_le_bytes(out, u.remaining, 8);
            push_le_bytes(out, u.total, 8);
        },
    }
    assert(out@ =~= old(out)@ + uses_bytes(*uses));
}

/// Appends the two flags of a record.
fn push_flags(out: &mut Vec<u8>, primary_sale_happened: bool, is_mutable: bool)
    ensures
        final(out)@ == old(out)@ + seq![bool_byte(primary_sale_happened), bool_byte(is_mutable)],
{
    out.push(bool_to_byte(primary_sale_happened));
    out.push(bool_to_byte(is_mutable));
    assert(out@ =~= old(out)@ + seq![bool_byte(primary_sale_happened), bool_byte(is_mutable)]);
}

/// Appends the token program version.
fn push_token_program_version(out: &mut Vec<u8>, version: TokenProgramVersion)
    ensures
        final(out)@ == old(out)@ + seq![token_program_version_byte(version)],
{
    out.push(
        match version {
            TokenProgramVersion::Original => 0,
            TokenProgramVersion::Token2022 => 1,
        },
    );
    assert(out@ =~= old(out)@ + seq![token_program_version_byte(version)]);
}

/// Lays a record out in bytes.
///
/// Fails with `MetadataTooLong` exactly when a text or the list of creators is
/// longer than four bytes can count.
pub fn serialize_metadata(metadata: &CnftMetadata) -> (result: Result<Vec<u8>, TinySplError>)
    ensures
        result is Ok <==> serializable(metadata@),
        result matches Ok(bytes) ==> bytes@ == metadata_bytes(metadata@),
        result matches Err(e) ==> e == TinySplError::MetadataTooLong,
{
    let mut out: Vec<u8> = Vec::new();
    if !push_text(&mut out, metadata.name.as_str()) {
        return Err(TinySplError::MetadataTooLong);
    }
    if !push_text(&mut out, metadata.symbol.as_str()) {
        return Err(TinySplError::MetadataTooLong);
    }
    if !push_text(&mut out, metadata.uri.as_str()) {
        return Err(TinySplError::MetadataTooLong);
    }
    if metadata.creators.len() > u32::MAX as usize {
        return Err(TinySplError::MetadataTooLong);
    }
    assert(out@ =~= text_bytes(metadata@.name) + text_bytes(metadata@.symbol) + text_bytes(
        metadata@.uri,
    ));
    push_le_bytes(&mut out, metadata.seller_fee_basis_points as u64, 2);
    push_flags(&mut out, metadata.primary_sale_happened, metadata.is_mutable);
    push_edition_nonce(&mut out, metadata.edition_nonce);
    push_token_standard(&mut out, metadata.token_standard);
    push_collection(&mut out, &metadata.collection);
    push_uses(&mut out, &metadata.uses);
    push_token_program_version(&mut out, metadata.token_program_version);
    push_le_bytes(&mut out, metadata.creators.len() as u64, 4);
    let creators = serialize_creators(&metadata.creators);
    push_bytes(&mut out, creators.as_slice());
    Ok(out)
}

} // verus!
