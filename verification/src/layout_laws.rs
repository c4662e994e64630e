//! No two records share their bytes: every field of a record can be read back
//! from the layout.

use vstd::prelude::*;
use vstd::utf8::{encode_utf8, encode_utf8_decode_utf8};
use crate::layout::{
    bool_byte, collection_bytes, creator_bytes, creators_bytes, edition_nonce_bytes, le_bytes,
    metadata_bytes, serializable, text_bytes, token_program_version_byte, token_standard_byte,
    token_standard_bytes, use_method_byte, uses_bytes,
};
use crate::state::{
    CnftMetadataView, Collection, Creator, TokenProgramVersion, TokenStandard, UseMethod, Uses,
};

verus! {

/// The number of values that `width` bytes can hold.
pub open spec fn limit(width: nat) -> nat
    decreases width,
{
    if width == 0 {
        1
    } else {
        256 * limit((width - 1) as nat)
    }
}

/// Two, four and eight bytes hold the values of 16, 32 and 64 bits.
pub proof fn lemma_limits()
    ensures
        limit(2) == 0x1_0000,
        limit(4) == 0x1_0000_0000,
        limit(8) == 0x1_0000_0000_0000_0000,
{
    reveal_with_fuel(limit, 9);
}

/// A number in `width` bytes takes `width` bytes.
pub proof fn lemma_le_bytes_len(value: nat, width: nat)
    ensures
        le_bytes(value, width).len() == width,
    decreases width,
{
    if width > 0 {
        lemma_le_bytes_len(value / 256, (width - 1) as nat);
    }
}

/// Two sequences that agree after prefixes of the same length agree in the
/// prefixes and in what follows them.
pub proof fn lemma_cut(a: Seq<u8>, after_a: Seq<u8>, b: Seq<u8>, after_b: Seq<u8>)
    requires
        a + after_a == b + after_b,
        a.len() == b.len(),
    ensures
        a == b,
        after_a == after_b,
{
    assert((a + after_a).len() == a.len() + after_a.len());
    assert((b + after_b).len() == b.len() + after_b.len());
    assert forall|i: int| 0 <= i < a.len() implies a[i] == b[i] by {
        assert((a + after_a)[i] == a[i]);
        assert((b + after_b)[i] == b[i]);
    }
    assert(a =~= b);
    assert forall|i: int| 0 <= i < after_a.len() implies after_a[i] == after_b[i] by {
        assert((a + after_a)[a.len() + i] == after_a[i]);
        assert((b + after_b)[b.len() + i] == after_b[i]);
    }
    assert(after_a =~= after_b);
}

/// Numbers that fit in `width` bytes and have the same bytes are the same.
pub proof fn lemma_le_bytes_injective(a: nat, b: nat, width: nat)
    requires
        a < limit(width),
        b < limit(width),
        le_bytes(a, width) == le_bytes(b, width),
    ensures
        a == b,
    decreases width,
{
    if width > 0 {
        let rest = (width - 1) as nat;
        lemma_le_bytes_len(a / 256, rest);
        lemma_le_bytes_len(b / 256, rest);
        lemma_cut(
            seq![(a % 256) as u8],
            le_bytes(a / 256, rest),
            seq![(b % 256) as u8],
            le_bytes(b / 256, rest),
        );
        assert(seq![(a % 256) as u8][0] == seq![(b % 256) as u8][0]);
        lemma_le_bytes_injective(a / 256, b / 256, rest);
    }
}

/// A text can be cut off the front of what follows it.
pub proof fn lemma_text_cut(s: Seq<char>, after_s: Seq<u8>, t: Seq<char>, after_t: Seq<u8>)
    requires
        encode_utf8(s).len() <= u32::MAX,
        encode_utf8(t).len() <= u32::MAX,
        text_bytes(s) + after_s == text_bytes(t) + after_t,
    ensures
        s == t,
        after_s == after_t,
{
    let len_s = le_bytes(encode_utf8(s).len(), 4);
    let len_t = le_bytes(encode_utf8(t).len(), 4);
    lemma_le_bytes_len(encode_utf8(s).len(), 4);
    lemma_le_bytes_len(encode_utf8(t).len(), 4);
    assert(text_bytes(s) + after_s =~= len_s + (encode_utf8(s) + after_s));
    assert(text_bytes(t) + after_t =~= len_t + (encode_utf8(t) + after_t));
    lemma_cut(len_s, encode_utf8(s) + after_s, len_t, encode_utf8(t) + after_t);
    lemma_limits();
    lemma_le_bytes_injective(encode_utf8(s).len(), encode_utf8(t).len(), 4);
    lemma_cut(encode_utf8(s), after_s, encode_utf8(t), after_t);
    encode_utf8_decode_utf8(s);
    encode_utf8_decode_utf8(t);
}

/// An optional edition nonce can be cut off the front of what follows it.
pub proof fn lemma_edition_nonce_cut(
    a: Option<u8>,
    after_a: Seq<u8>,
    b: Option<u8>,
    after_b: Seq<u8>,
)
    requires
        edition_nonce_bytes(a) + after_a == edition_nonce_bytes(b) + after_b,
    ensures
        a == b,
        after_a == after_b,
{
    let x = edition_nonce_bytes(a);
    let y = edition_nonce_bytes(b);
    assert((x + after_a)[0] == x[0]);
    assert((y + after_b)[0] == y[0]);
    lemma_cut(x, after_a, y, after_b);
    if a is Some {
        assert(x[1] == y[1]);
    }
}

/// An optional token standard can be cut off the front of what follows it.
pub proof fn lemma_token_standard_cut(
    a: Option<TokenStandard>,
    after_a: Seq<u8>,
    b: Option<TokenStandard>,
    after_b: Seq<u8>,
)
    requires
        token_standard_bytes(a) + after_a == token_standard_bytes(b) + after_b,
    ensures
        a == b,
        after_a == after_b,
{
    let x = token_standard_bytes(a);
    let y = token_standard_bytes(b);
    assert((x + after_a)[0] == x[0]);
    assert((y + after_b)[0] == y[0]);
    lemma_cut(x, after_a, y, after_b);
    if a is Some {
        assert(x[1] == y[1]);
    }
}

/// An optional collection can be cut off the front of what follows it.
pub proof fn lemma_collection_cut(
    a: Option<Collection>,
    after_a: Seq<u8>,
    b: Option<Collection>,
    after_b: Seq<u8>,
)
    requires
        collection_bytes(a) + after_a == collection_bytes(b) + after_b,
    ensures
        a == b,
        after_a == after_b,
{
    let x = collection_bytes(a);
    let y = collection_bytes(b);
    assert((x + after_a)[0] == x[0]);
    assert((y + after_b)[0] == y[0]);
    lemma_cut(x, after_a, y, after_b);
    if let (Some(c), Some(d)) = (a, b) {
        assert(x[1] == y[1]);
        assert forall|i: int| 0 <= i < 32 implies c.key[i] == d.key[i] by {
            assert(x[2 + i] == c.key@[i]);
            assert(y[2 + i] == d.key@[i]);
        }
        assert(c.key =~= d.key);
    }
}

/// Optional uses can be cut off the front of what follows them.
pub proof fn lemma_uses_cut(a: Option<Uses>, after_a: Seq<u8>, b: Option<Uses>, after_b: Seq<u8>)
    requires
        uses_bytes(a) + after_a == uses_bytes(b) + after_b,
    ensures
        a == b,
        after_a == after_b,
{
    let x = uses_bytes(a);
    let y = uses_bytes(b);
    if let Some(u) = a {
        lemma_le_bytes_len(u.remaining as nat, 8);
        lemma_le_bytes_len(u.total as nat, 8);
    }
    if let Some(v) = b {
        lemma_le_bytes_len(v.remaining as nat, 8);
        lemma_le_bytes_len(v.total as nat, 8);
    }
    assert((x + after_a)[0] == x[0]);
    assert((y + after_b)[0] == y[0]);
    lemma_cut(x, after_a, y, after_b);
    if let (Some(u), Some(v)) = (a, b) {
        assert(x[1] == y[1]);
        let head_u = seq![1u8, use_method_byte(u.use_method)];
        let head_v = seq![1u8, use_method_byte(v.use_method)];
        assert(x =~= head_u + (le_bytes(u.remaining as nat, 8) + le_bytes(u.total as nat, 8)));
        assert(y =~= head_v + (le_bytes(v.remaining as nat, 8) + le_bytes(v.total as nat, 8)));
        lemma_cut(
            head_u,
            le_bytes(u.remaining as nat, 8) + le_bytes(u.total as nat, 8),
            head_v,
            le_bytes(v.remaining as nat, 8) + le_bytes(v.total as nat, 8),
        );
        lemma_cut(
            le_bytes(u.remaining as nat, 8),
            le_bytes(u.total as nat, 8),
            le_bytes(v.remaining as nat, 8),
            le_bytes(v.total as nat, 8),
        );
        lemma_limits();
        lemma_le_bytes_injective(u.remaining as nat, v.remaining as nat, 8);
        lemma_le_bytes_injective(u.total as nat, v.total as nat, 8);
    }
}

/// Creators with the same bytes are the same creator.
pub proof fn lemma_creator_bytes_injective(a: Creator, b: Creator)
    requires
        creator_bytes(a) == creator_bytes(b),
    ensures
        a == b,
{
    let x = creator_bytes(a);
    let y = creator_bytes(b);
    assert forall|i: int| 0 <= i < 32 implies a.address[i] == b.address[i] by {
        assert(x[i] == a.address@[i]);
        assert(y[i] == b.address@[i]);
    }
    assert(a.address =~= b.address);
    assert(x[32] == bool_byte(a.verified));
    assert(y[32] == bool_byte(b.verified));
    assert(x[33] == a.share);
    assert(y[33] == b.share);
}

/// Each creator takes 34 bytes.
pub proof fn lemma_creators_bytes_len(creators: Seq<Creator>)
    ensures
        creators_bytes(creators).len() == 34 * creators.len(),
    decreases creators.len(),
{
    if creators.len() > 0 {
        lemma_creators_bytes_len(creators.drop_last());
    }
}

/// Lists of creators of the same length and with the same bytes are the same
/// list.
pub proof fn lemma_creators_bytes_injective(a: Seq<Creator>, b: Seq<Creator>)
    requires
        a.len() == b.len(),
        creators_bytes(a) == creators_bytes(b),
    ensures
        a == b,
    decreases a.len(),
{
    if a.len() > 0 {
        lemma_creators_bytes_len(a.drop_last());
        lemma_creators_bytes_len(b.drop_last());
        lemma_cut(
            creators_bytes(a.drop_last()),
            creator_bytes(a.last()),
            creators_bytes(b.drop_last()),
            creator_bytes(b.last()),
        );
        lemma_creators_bytes_injective(a.drop_last(), b.drop_last());
        lemma_creator_bytes_injective(a.last(), b.last());
        assert(a =~= a.drop_last().push(a.last()));
        assert(b =~= b.drop_last().push(b.last()));
    } else {
        assert(a =~= b);
    }
}

/// What follows the three texts of a record.
pub open spec fn after_texts(metadata: CnftMetadataView) -> Seq<u8> {
    le_bytes(metadata.seller_fee_basis_points as nat, 2).add(
        seq![bool_byte(metadata.primary_sale_happened), bool_byte(metadata.is_mutable)].add(
            edition_nonce_bytes(metadata.edition_nonce).add(
                token_standard_bytes(metadata.token_standard).add(
                    collection_bytes(metadata.collection).add(after_collection(metadata)),
                ),
            ),
        ),
    )
}

/// What follows the collection of a record.
pub open spec fn after_collection(metadata: CnftMetadataView) -> Seq<u8> {
    uses_bytes(metadata.uses).add(
        seq![token_program_version_byte(metadata.token_program_version)].add(
            le_bytes(metadata.creators.len(), 4).add(creators_bytes(metadata.creators)),
        ),
    )
}

/// Sequences can be joined in any grouping.
pub proof fn lemma_join_regroups(a: Seq<u8>, b: Seq<u8>, c: Seq<u8>)
    ensures
        (a + b) + c == a + (b + c),
{
    assert((a + b) + c =~= a + (b + c));
}

/// The bytes of a record, read from the front: each field, then what follows.
pub proof fn lemma_metadata_bytes_nested(metadata: CnftMetadataView)
    ensures
        metadata_bytes(metadata) == text_bytes(metadata.name).add(
            text_bytes(metadata.symbol).add(text_bytes(metadata.uri).add(after_texts(metadata))),
        ),
{
    let name = text_bytes(metadata.name);
    let symbol = text_bytes(metadata.symbol);
    let uri = text_bytes(metadata.uri);
    let fee = le_bytes(metadata.seller_fee_basis_points as nat, 2);
    let flags = seq![bool_byte(metadata.primary_sale_happened), bool_byte(metadata.is_mutable)];
    let nonce = edition_nonce_bytes(metadata.edition_nonce);
    let standard = token_standard_bytes(metadata.token_standard);
    let collection = collection_bytes(metadata.collection);
    let uses = uses_bytes(metadata.uses);
    let version = seq![token_program_version_byte(metadata.token_program_version)];
    let count = le_bytes(metadata.creators.len(), 4);
    let creators = creators_bytes(metadata.creators);
    let back11 = count + creators;
    let back10 = version + back11;
    let back9 = uses + back10;
    let back8 = collection + back9;
    let back7 = standard + back8;
    let back6 = nonce + back7;
    let back5 = flags + back6;
    let back4 = fee + back5;
    let back3 = uri + back4;
    let back2 = symbol + back3;
    let front2 = name + symbol;
    let front3 = front2 + uri;
    let front4 = front3 + fee;
    let front5 = front4 + flags;
    let front6 = front5 + nonce;
    let front7 = front6 + standard;
    let front8 = front7 + collection;
    let front9 = front8 + uses;
    let front10 = front9 + version;
    let front11 = front10 + count;
    assert(metadata_bytes(metadata) == front11 + creators);
    assert(back9 == after_collection(metadata));
    assert(back4 == after_texts(metadata));
    lemma_join_regroups(front10, count, creators);
    lemma_join_regroups(front9, version, back11);
    lemma_join_regroups(front8, uses, back10);
    lemma_join_regroups(front7, collection, back9);
    lemma_join_regroups(front6, standard, back8);
    lemma_join_regroups(front5, nonce, back7);
    lemma_join_regroups(front4, flags, back6);
    lemma_join_regroups(front3, fee, back5);
    lemma_join_regroups(front2, uri, back4);
    lemma_join_regroups(name, symbol, back3);
    assert(front11 + creators == name + back2);
}

/// Records with the same bytes are the same record: no field can change
/// without a change in the bytes.
pub proof fn lemma_metadata_bytes_injective(a: CnftMetadataView, b: CnftMetadataView)
    requires
        serializable(a),
        serializable(b),
        metadata_bytes(a) == metadata_bytes(b),
    ensures
        a == b,
{
    lemma_metadata_bytes_nested(a);
    lemma_metadata_bytes_nested(b);
    lemma_limits();
    lemma_text_cut(
        a.name,
        text_bytes(a.symbol) + (text_bytes(a.uri) + after_texts(a)),
        b.name,
        text_bytes(b.symbol) + (text_bytes(b.uri) + after_texts(b)),
    );
    lemma_text_cut(
        a.symbol,
        text_bytes(a.uri) + after_texts(a),
        b.symbol,
        text_bytes(b.uri) + after_texts(b),
    );
    lemma_text_cut(a.uri, after_texts(a), b.uri, after_texts(b));
    lemma_after_texts_injective(a, b);
}

/// Records that agree in what follows their texts agree in every field but
/// the texts.
pub proof fn lemma_after_texts_injective(a: CnftMetadataView, b: CnftMetadataView)
    requires
        a.creators.len() <= u32::MAX,
        b.creators.len() <= u32::MAX,
        after_texts(a) == after_texts(b),
    ensures
        a.seller_fee_basis_points == b.seller_fee_basis_points,
        a.primary_sale_happened == b.primary_sale_happened,
        a.is_mutable == b.is_mutable,
        a.edition_nonce == b.edition_nonce,
        a.token_standard == b.token_standard,
        a.collection == b.collection,
        a.uses == b.uses,
        a.token_program_version == b.token_program_version,
        a.creators == b.creators,
{
    lemma_limits();
    let flags_a = seq![bool_byte(a.primary_sale_happened), bool_byte(a.is_mutable)];
    let flags_b = seq![bool_byte(b.primary_sale_happened), bool_byte(b.is_mutable)];
    let from_collection_a = collection_bytes(a.collection) + after_collection(a);
    let from_collection_b = collection_bytes(b.collection) + after_collection(b);
    let from_standard_a = token_standard_bytes(a.token_standard) + from_collection_a;
    let from_standard_b = token_standard_bytes(b.token_standard) + from_collection_b;
    let from_nonce_a = edition_nonce_bytes(a.edition_nonce) + from_standard_a;
    let from_nonce_b = edition_nonce_bytes(b.edition_nonce) + from_standard_b;
    lemma_le_bytes_len(a.seller_fee_basis_points as nat, 2);
    lemma_le_bytes_len(b.seller_fee_basis_points as nat, 2);
    lemma_cut(
        le_bytes(a.seller_fee_basis_points as nat, 2),
        flags_a + from_nonce_a,
        le_bytes(b.seller_fee_basis_points as nat, 2),
        flags_b + from_nonce_b,
    );
    lemma_le_bytes_injective(
        a.seller_fee_basis_points as nat,
        b.seller_fee_basis_points as nat,
        2,
    );
    lemma_cut(flags_a, from_nonce_a, flags_b, from_nonce_b);
    assert(flags_a[0] == flags_b[0]);
    assert(flags_a[1] == flags_b[1]);
    lemma_edition_nonce_cut(a.edition_nonce, from_standard_a, b.edition_nonce, from_standard_b);
    lemma_token_standard_cut(
        a.token_standard,
        from_collection_a,
        b.token_standard,
        from_collection_b,
    );
    lemma_collection_cut(a.collection, after_collection(a), b.collection, after_collection(b));
    let count_a = le_bytes(a.creators.len(), 4);
    let count_b = le_bytes(b.creators.len(), 4);
    let version_a = seq![token_program_version_byte(a.token_program_version)];
    let version_b = seq![token_program_version_byte(b.token_program_version)];
    lemma_uses_cut(
        a.uses,
        version_a + (count_a + creators_bytes(a.creators)),
        b.uses,
        version_b + (count_b + creators_bytes(b.creators)),
    );
    lemma_cut(
        version_a,
        count_a + creators_bytes(a.creators),
        version_b,
        count_b + creators_bytes(b.creators),
    );
    assert(version_a[0] == version_b[0]);
    lemma_le_bytes_len(a.creators.len(), 4);
    lemma_le_bytes_len(b.creators.len(), 4);
    lemma_cut(count_a, creators_bytes(a.creators), count_b, creators_bytes(b.creators));
    lemma_le_bytes_injective(a.creators.len(), b.creators.len(), 4);
    lemma_creators_bytes_injective(a.creators, b.creators);
}

} // verus!
