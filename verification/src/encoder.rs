//! The texts of a balance: a display name with the amount in groups of three
//! digits, and a locator that carries the amount as a query parameter.

use vstd::prelude::*;
use vstd::string::*;
use crate::keys::Pubkey;
use crate::state::{
    CnftMetadata, CnftMetadataView, Collection, Creator, MintTinySplArgs, TokenProgramVersion,
    TokenStandard,
};

verus! {

/// The base-58 text of an address.
pub uninterp spec fn base58_text(key: Seq<u8>) -> Seq<char>;

/// Calls `to_string` on the `Pubkey` of the Solana program library made of
/// `key`, which writes the address in base 58.
///
/// The contract claims that the text is a function of the 32 bytes alone, and
/// gives that function the name `base58_text`.
#[verifier::external_body]
fn key_text(key: &Pubkey) -> (text: String)
    ensures
        text@ == base58_text(key@),
{
    anchor_lang::prelude::Pubkey::new_from_array(*key).to_string()
}

/// `String::push` of the standard library appends one character.
pub assume_specification[ String::push ](text: &mut String, c: char)
    ensures
        final(text)@ == old(text)@.push(c),
;

/// The character of a decimal digit.
pub open spec fn digit_char(d: nat) -> char
    recommends
        d < 10,
{
    (('0' as u8) + d) as char
}

/// A number in decimal, without leading zeros.
pub open spec fn decimal(n: nat) -> Seq<char>
    decreases n,
{
    if n < 10 {
        seq![digit_char(n)]
    } else {
        decimal(n / 10).push(digit_char(n % 10))
    }
}

/// The three digits of a number below a thousand, zeros included.
pub open spec fn three_digits(n: nat) -> Seq<char>
    recommends
        n < 1000,
{
    seq![digit_char(n / 100), digit_char(n / 10 % 10), digit_char(n % 10)]
}

/// A number in decimal, its digits in groups of three from the right with a
/// comma between the groups.
pub open spec fn grouped(n: nat) -> Seq<char>
    decreases n,
{
    if n < 1000 {
        decimal(n)
    } else {
        grouped(n / 1000) + seq![','] + three_digits(n % 1000)
    }
}

/// A text without the occurrences of one character.
pub open spec fn without(text: Seq<char>, unwanted: char) -> Seq<char>
    decreases text.len(),
{
    if text.len() == 0 {
        text
    } else if text.last() == unwanted {
        without(text.drop_last(), unwanted)
    } else {
        without(text.drop_last(), unwanted).push(text.last())
    }
}

/// A text without its NUL characters.
pub open spec fn without_nul(text: Seq<char>) -> Seq<char> {
    without(text, '\0')
}

/// The display name of a balance: the grouped amount, a space, the symbol.
pub open spec fn name_text(symbol: Seq<char>, amount: u64) -> Seq<char> {
    without_nul(grouped(amount as nat) + seq![' '] + symbol)
}

/// The locator of a balance: the address of its collection and its amount, as
/// query parameters of a fixed location.
pub open spec fn uri_text(collection_mint: Seq<char>, amount: u64) -> Seq<char> {
    without_nul(
        "https://metadata.tinys.pl/collection?id="@ + collection_mint + "&amount="@ + decimal(
            amount as nat,
        ),
    )
}

/// The record of a balance of `amount` in the collection `collection_mint`,
/// with `tiny_spl_authority` as its only creator.
pub open spec fn tiny_spl_metadata(
    symbol: Seq<char>,
    amount: u64,
    collection_mint: Pubkey,
    tiny_spl_authority: Pubkey,
) -> CnftMetadataView {
    CnftMetadataView {
        name: name_text(symbol, amount),
        symbol: without_nul(symbol),
        uri: uri_text(base58_text(collection_mint@), amount),
        seller_fee_basis_points: 0,
        primary_sale_happened: false,
        is_mutable: true,
        edition_nonce: None,
        token_standard: Some(TokenStandard::NonFungible),
        collection: Some(Collection { verified: true, key: collection_mint }),
        uses: None,
        token_program_version: TokenProgramVersion::Original,
        creators: seq![Creator { address: tiny_spl_authority, verified: true, share: 100 }],
    }
}

/// What is left of a text holds the unwanted character nowhere, and is the
/// text itself where the text held it nowhere.
pub proof fn lemma_without(text: Seq<char>, unwanted: char)
    ensures
        without(text, unwanted).len() <= text.len(),
        forall|i: int|
            0 <= i < without(text, unwanted).len() ==> #[trigger] without(text, unwanted)[i]
                != unwanted,
        (forall|i: int| 0 <= i < text.len() ==> text[i] != unwanted) ==> without(text, unwanted)
            == text,
    decreases text.len(),
{
    if text.len() > 0 {
        let shorter = text.drop_last();
        lemma_without(shorter, unwanted);
        if forall|i: int| 0 <= i < text.len() ==> text[i] != unwanted {
            assert forall|i: int| 0 <= i < shorter.len() implies shorter[i] != unwanted by {
                assert(shorter[i] == text[i]);
            }
            assert(without(text, unwanted) =~= text);
        }
    }
}

/// Taking a character out of two texts joined is taking it out of each.
pub proof fn lemma_without_joined(a: Seq<char>, b: Seq<char>, unwanted: char)
    ensures
        without(a + b, unwanted) == without(a, unwanted) + without(b, unwanted),
    decreases b.len(),
{
    if b.len() == 0 {
        assert(a + b =~= a);
        assert(without(a, unwanted) + without(b, unwanted) =~= without(a, unwanted));
    } else {
        lemma_without_joined(a, b.drop_last(), unwanted);
        assert((a + b).drop_last() =~= a + b.drop_last());
        assert((a + b).last() == b.last());
        assert(without(a + b, unwanted) =~= without(a, unwanted) + without(b, unwanted));
    }
}

/// The decimal text of a number holds no comma.
pub proof fn lemma_decimal_has_no_comma(n: nat)
    ensures
        forall|i: int| 0 <= i < decimal(n).len() ==> #[trigger] decimal(n)[i] != ',',
    decreases n,
{
    if n >= 10 {
        lemma_decimal_has_no_comma(n / 10);
        let shorter = decimal(n / 10);
        assert forall|i: int| 0 <= i < decimal(n).len() implies #[trigger] decimal(n)[i]
            != ',' by {
            if i < shorter.len() {
                assert(decimal(n)[i] == shorter[i]);
            }
        }
    }
}

/// From a thousand on, the decimal text of a number is that of its thousands
/// followed by the three digits of the rest.
pub proof fn lemma_decimal_by_thousands(n: nat)
    requires
        n >= 1000,
    ensures
        decimal(n) == decimal(n / 1000) + three_digits(n % 1000),
{
    let tens = n / 10;
    let hundreds = n / 100;
    assert(hundreds == tens / 10);
    assert(n / 1000 == hundreds / 10);
    assert(decimal(n) == decimal(tens).push(digit_char(n % 10)));
    assert(decimal(tens) == decimal(hundreds).push(digit_char(tens % 10)));
    assert(decimal(hundreds) == decimal(n / 1000).push(digit_char(hundreds % 10)));
    assert(hundreds % 10 == (n % 1000) / 100);
    assert(tens % 10 == (n % 1000) / 10 % 10);
    assert(n % 10 == (n % 1000) % 10);
    assert(decimal(n) =~= decimal(n / 1000) + three_digits(n % 1000));
}

/// The grouped text of a number is its decimal text with commas put in:
/// without the commas the two are the same.
pub proof fn lemma_grouped_is_decimal_with_commas(n: nat)
    ensures
        without(grouped(n), ',') == decimal(n),
    decreases n,
{
    lemma_decimal_has_no_comma(n);
    if n < 1000 {
        lemma_without(decimal(n), ',');
    } else {
        let low = three_digits(n % 1000);
        lemma_grouped_is_decimal_with_commas(n / 1000);
        lemma_decimal_by_thousands(n);
        lemma_without_joined(grouped(n / 1000) + seq![','], low, ',');
        lemma_without_joined(grouped(n / 1000), seq![','], ',');
        assert(without(seq![','], ',') =~= Seq::<char>::empty()) by {
            let comma = seq![','];
            assert(comma.len() == 1 && comma.last() == ',');
            assert(comma.drop_last() =~= Seq::<char>::empty());
            assert(without(comma.drop_last(), ',') =~= Seq::<char>::empty());
        }
        assert(without(low, ',') == low) by {
            lemma_without(low, ',');
        }
        assert(without(grouped(n), ',') =~= decimal(n / 1000) + low);
    }
}

/// The character of the digit `d`.
fn digit(d: u64) -> (c: char)
    requires
        d < 10,
    ensures
        c == digit_char(d as nat),
{
    (48u8 + d as u8) as char
}

/// Appends `n` in decimal.
fn push_decimal(out: &mut String, n: u64)
    ensures
        final(out)@ == old(out)@ + decimal(n as nat),
    decreases n,
{
    if n >= 10 {
        push_decimal(out, n / 10);
    }
    out.push(digit(n % 10));
    assert(out@ =~= old(out)@ + decimal(n as nat));
}

/// Appends `n` in decimal, in groups of three digits.
fn push_grouped(out: &mut String, n: u64)
    ensures
        final(out)@ == old(out)@ + grouped(n as nat),
    decreases n,
{
    if n < 1000 {
        push_decimal(out, n);
    } else {
        push_grouped(out, n / 1000);
        out.push(',');
        let low = n % 1000;
        out.push(digit(low / 100));
        out.push(digit(low / 10 % 10));
        out.push(digit(low % 10));
        assert(out@ =~= old(out)@ + grouped(n as nat));
    }
}

/// An amount in decimal.
pub fn decimal_text(amount: u64) -> (text: String)
    ensures
        text@ == decimal(amount as nat),
{
    let mut out = String::new();
    push_decimal(&mut out, amount);
    assert(out@ =~= decimal(amount as nat));
    out
}

/// An amount in decimal, in groups of three digits.
pub fn grouped_text(amount: u64) -> (text: String)
    ensures
        text@ == grouped(amount as nat),
{
    let mut out = String::new();
    push_grouped(&mut out, amount);
    assert(out@ =~= grouped(amount as nat));
    out
}

/// A copy of `text` without its NUL characters.
pub fn strip_nul(text: &str) -> (stripped: String)
    ensures
        stripped@ == without_nul(text@),
{
    let mut out = String::new();
    for c in it: text.chars()
        invariant
            it.seq() == text@,
            out@ == without_nul(text@.take(it.index() as int)),
    {
        proof {
            let k = it.index() as int;
            assert(text@.take(k + 1).drop_last() =~= text@.take(k));
        }
        if c != '\0' {
            out.push(c);
        }
    }
    proof {
        assert(text@.take(text@.len() as int) =~= text@);
    }
    out
}

/// The texts of a new leaf that holds `amount` of the collection whose address
/// reads `collection_mint`.
pub fn get_mint_tiny_spl_args(symbol: String, amount: u64, collection_mint: String) -> (args:
    MintTinySplArgs)
    ensures
        args.name@ == name_text(symbol@, amount),
        args.symbol@ == without_nul(symbol@),
        args.uri@ == uri_text(collection_mint@, amount),
{
    let mut name = grouped_text(amount);
    name.push(' ');
    name.append(symbol.as_str());
    assert(name@ =~= grouped(amount as nat) + seq![' '] + symbol@);
    let mut uri = String::from_str("https://metadata.tinys.pl/collection?id=");
    uri.append(collection_mint.as_str());
    uri.append("&amount=");
    let digits = decimal_text(amount);
    uri.append(digits.as_str());
    MintTinySplArgs {
        name: strip_nul(name.as_str()),
        symbol: strip_nul(symbol.as_str()),
        uri: strip_nul(uri.as_str()),
    }
}

/// The record of a new leaf that holds `amount` of the collection
/// `collection_mint`, with `tiny_spl_authority` as its only creator.
pub fn get_tiny_spl_metadata(
    symbol: String,
    amount: u64,
    collection_mint: Pubkey,
    tiny_spl_authority: Pubkey,
) -> (metadata: CnftMetadata)
    ensures
        metadata@ == tiny_spl_metadata(symbol@, amount, collection_mint, tiny_spl_authority),
{
    let args = get_mint_tiny_spl_args(symbol, amount, key_text(&collection_mint));
    let mut creators: Vec<Creator> = Vec::new();
    creators.push(Creator { address: tiny_spl_authority, verified: true, share: 100 });
    let metadata = CnftMetadata {
        name: args.name,
        symbol: args.symbol,
        uri: args.uri,
        seller_fee_basis_points: 0,
        primary_sale_happened: false,
        is_mutable: true,
        edition_nonce: None,
        token_standard: Some(TokenStandard::NonFungible),
        collection: Some(Collection { verified: true, key: collection_mint }),
        uses: None,
        token_program_version: TokenProgramVersion::Original,
        creators,
    };
    assert(metadata@.creators =~= tiny_spl_metadata(
        symbol@,
        amount,
        collection_mint,
        tiny_spl_authority,
    ).creators);
    metadata
}

} // verus!
