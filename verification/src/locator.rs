//! Reading the amount of a balance back from the locator of its record.

use vstd::prelude::*;
use vstd::string::*;
use crate::encoder::{decimal, digit_char};
use crate::state::CnftMetadata;

verus! {

/// Why no amount could be read from a locator.
#[derive(Clone, Copy, Debug, PartialEq, Eq, Structural)]
pub enum TokenAmountError {
    /// The locator is no URL.
    InvalidUri,
    /// The query of the locator has no parameter `amount`.
    MissingAmount,
    /// The first parameter `amount` is no number of 64 bits.
    InvalidAmount,
}

/// The error that `Url::parse` of the `url` crate returns.
#[verifier::external_type_specification]
#[verifier::external_body]
pub struct ExParseError(url::ParseError);

/// The name and value pairs in the query of a URL, in their order; `None`
/// where the text is no URL.
pub uninterp spec fn url_query_pairs(uri: Seq<char>) -> Option<Seq<(Seq<char>, Seq<char>)>>;

/// Pairs of texts as pairs of character sequences.
pub open spec fn pairs_view(pairs: Seq<(String, String)>) -> Seq<(Seq<char>, Seq<char>)> {
    pairs.map_values(|pair: (String, String)| (pair.0@, pair.1@))
}

/// Calls `Url::parse` of the `url` crate on `uri` and, where that succeeds,
/// `query_pairs` on the URL, collecting every pair as owned texts.
///
/// The contract claims that whether the text parses, and the pairs of its
/// query, are a function of the text alone, and gives that function the name
/// `url_query_pairs`.
#[verifier::external_body]
fn query_pairs(uri: &str) -> (result: Result<Vec<(String, String)>, url::ParseError>)
    ensures
        match result {
            Ok(pairs) => url_query_pairs(uri@) == Some(pairs_view(pairs@)),
            Err(_) => url_query_pairs(uri@) is None,
        },
{
    let url = url::Url::parse(uri)?;
    Ok(url.query_pairs().into_owned().collect())
}

/// Whether a character is one of the ten decimal digits.
pub open spec fn is_digit(c: char) -> bool {
    '0' <= c <= '9'
}

/// The number that a sequence of digits stands for.
pub open spec fn digits_value(digits: Seq<char>) -> nat
    decreases digits.len(),
{
    if digits.len() == 0 {
        0
    } else {
        digits_value(digits.drop_last()) * 10 + (digits.last() as nat - '0' as nat) as nat
    }
}

/// What follows an optional plus sign at the start of a text.
pub open spec fn unsigned_part(text: Seq<char>) -> Seq<char> {
    if text.len() > 0 && text[0] == '+' {
        text.drop_first()
    } else {
        text
    }
}

/// The number of 64 bits that a text stands for: an optional plus sign, then
/// one or more decimal digits and nothing else.
pub open spec fn parse_amount_text(text: Seq<char>) -> Option<u64> {
    let digits = unsigned_part(text);
    if digits.len() > 0 && (forall|i: int| 0 <= i < digits.len() ==> is_digit(digits[i]))
        && digits_value(digits) <= u64::MAX {
        Some(digits_value(digits) as u64)
    } else {
        None
    }
}

/// The value of the first pair whose name is `amount`.
pub open spec fn first_amount(pairs: Seq<(Seq<char>, Seq<char>)>) -> Option<Seq<char>>
    decreases pairs.len(),
{
    if pairs.len() == 0 {
        None
    } else if pairs[0].0 == "amount"@ {
        Some(pairs[0].1)
    } else {
        first_amount(pairs.drop_first())
    }
}

/// The amount that the pairs of a query give.
pub open spec fn amount_in(pairs: Seq<(Seq<char>, Seq<char>)>) -> Result<u64, TokenAmountError> {
    match first_amount(pairs) {
        None => Err(TokenAmountError::MissingAmount),
        Some(text) => match parse_amount_text(text) {
            None => Err(TokenAmountError::InvalidAmount),
            Some(amount) => Ok(amount),
        },
    }
}

/// The amount that a locator gives, from what the parse of the locator gave.
pub open spec fn amount_of(parsed: Option<Seq<(Seq<char>, Seq<char>)>>) -> Result<
    u64,
    TokenAmountError,
> {
    match parsed {
        None => Err(TokenAmountError::InvalidUri),
        Some(pairs) => amount_in(pairs),
    }
}

/// The value of a sequence of digits only grows when digits are added.
pub proof fn lemma_digits_value_prefix(digits: Seq<char>, n: int)
    requires
        0 <= n <= digits.len(),
        forall|i: int| 0 <= i < digits.len() ==> is_digit(digits[i]),
    ensures
        digits_value(digits.take(n)) <= digits_value(digits),
    decreases digits.len() - n,
{
    if n == digits.len() {
        assert(digits.take(n) =~= digits);
    } else {
        lemma_digits_value_prefix(digits, n + 1);
        let longer = digits.take(n + 1);
        assert(longer.drop_last() =~= digits.take(n));
        assert(is_digit(longer.last()));
    }
}

/// Reads a number of 64 bits: an optional plus sign, then one or more decimal
/// digits and nothing else.
pub fn parse_amount(text: &str) -> (amount: Option<u64>)
    ensures
        amount == parse_amount_text(text@),
{
    let mut value: u64 = 0;
    let mut at_start = true;
    let mut any_digit = false;
    let ghost digits = unsigned_part(text@);
    let ghost mut seen: int = 0;
    for c in it: text.chars()
        invariant
            it.seq() == text@,
            digits == unsigned_part(text@),
            at_start <==> it.index() == 0,
            any_digit <==> seen > 0,
            seen == it.index() || (seen == it.index() - 1 && text@.len() > 0 && text@[0] == '+'),
            seen == it.index() - 1 ==> digits == text@.drop_first(),
            seen == it.index() && seen > 0 ==> digits == text@,
            0 <= seen <= digits.len(),
            forall|i: int| 0 <= i < seen ==> is_digit(digits[i]),
            value == digits_value(digits.take(seen)),
    {
        if c == '+' && at_start {
            at_start = false;
        } else {
            proof {
                assert(digits[seen] == c);
                assert(digits.take(seen + 1).drop_last() =~= digits.take(seen));
            }
            if !(c >= '0' && c <= '9') {
                return None;
            }
            let d: u64 = (c as u32 - '0' as u32) as u64;
            proof {
                if forall|i: int| 0 <= i < digits.len() ==> is_digit(digits[i]) {
                    lemma_digits_value_prefix(digits, seen + 1);
                }
            }
            match value.checked_mul(10) {
                None => {
                    return None;
                },
                Some(tens) => match tens.checked_add(d) {
                    None => {
                        return None;
                    },
                    Some(next) => {
                        value = next;
                    },
                },
            }
            at_start = false;
            any_digit = true;
            proof {
                seen = seen + 1;
            }
        }
    }
    proof {
        assert(digits.take(seen) =~= digits);
    }
    if any_digit {
        Some(value)
    } else {
        None
    }
}

/// Reads the amount from the pairs of a locator's query: the value of the
/// first pair named `amount`, as a number of 64 bits.
///
/// Fails with `MissingAmount` exactly when no pair is named `amount`, and with
/// `InvalidAmount` exactly when the first such pair holds no number.
pub fn amount_from_pairs(pairs: &Vec<(String, String)>) -> (result: Result<u64, TokenAmountError>)
    ensures
        result == amount_in(pairs_view(pairs@)),
{
    let name = String::from_str("amount");
    let ghost all = pairs_view(pairs@);
    let mut i: usize = 0;
    assert(all.skip(0) =~= all);
    while i < pairs.len()
        invariant
            0 <= i <= pairs.len(),
            all == pairs_view(pairs@),
            name@ == "amount"@,
            first_amount(all) == first_amount(all.skip(i as int)),
        decreases pairs.len() - i,
    {
        proof {
            assert(all.skip(i as int)[0] == all[i as int]);
            assert(all.skip(i as int).drop_first() =~= all.skip(i + 1));
        }
        if pairs[i].0 == name {
            return match parse_amount(pairs[i].1.as_str()) {
                Some(amount) => Ok(amount),
                None => Err(TokenAmountError::InvalidAmount),
            };
        }
        i += 1;
    }
    Err(TokenAmountError::MissingAmount)
}

/// The decimal text of a number holds digits only, and stands for the number.
pub proof fn lemma_decimal_digits(n: nat)
    ensures
        decimal(n).len() > 0,
        forall|i: int| 0 <= i < decimal(n).len() ==> is_digit(#[trigger] decimal(n)[i]),
        digits_value(decimal(n)) == n,
    decreases n,
{
    if n < 10 {
        assert(decimal(n).drop_last() =~= Seq::<char>::empty());
        assert(digits_value(decimal(n).drop_last()) == 0);
    } else {
        lemma_decimal_digits(n / 10);
        let shorter = decimal(n / 10);
        assert(decimal(n).drop_last() =~= shorter);
        assert(decimal(n).last() == digit_char(n % 10));
        assert forall|i: int| 0 <= i < decimal(n).len() implies is_digit(
            #[trigger] decimal(n)[i],
        ) by {
            if i < shorter.len() {
                assert(decimal(n)[i] == shorter[i]);
            }
        }
    }
}

/// The decimal text of an amount reads back as that amount.
pub proof fn lemma_decimal_parses(amount: u64)
    ensures
        parse_amount_text(decimal(amount as nat)) == Some(amount),
{
    lemma_decimal_digits(amount as nat);
    assert(is_digit(decimal(amount as nat)[0]));
}

/// The two parameters of a balance's locator, the collection under the name
/// `id` and the amount under the name `amount`, give back the amount.
pub proof fn lemma_amount_round_trip(collection_mint: Seq<char>, amount: u64)
    ensures
        amount_in(seq![("id"@, collection_mint), ("amount"@, decimal(amount as nat))]) == Ok::<
            u64,
            TokenAmountError,
        >(amount),
{
    reveal_strlit("id");
    reveal_strlit("amount");
    assert("id"@.len() != "amount"@.len());
    let pairs = seq![("id"@, collection_mint), ("amount"@, decimal(amount as nat))];
    let rest = pairs.drop_first();
    assert(rest[0] == ("amount"@, decimal(amount as nat)));
    assert(first_amount(rest) == Some(decimal(amount as nat)));
    assert(first_amount(pairs) == first_amount(rest));
    lemma_decimal_parses(amount);
}

/// Reads the amount of a balance from the locator of its record.
///
/// The locator is parsed as a URL. Fails with `InvalidUri` exactly when it is
/// none; otherwise the pairs of its query decide, as in `amount_from_pairs`.
pub fn get_token_amount(metadata: &CnftMetadata) -> (result: Result<u64, TokenAmountError>)
    ensures
        result == amount_of(url_query_pairs(metadata@.uri)),
{
    match query_pairs(metadata.uri.as_str()) {
        Ok(pairs) => amount_from_pairs(&pairs),
        Err(_) => Err(TokenAmountError::InvalidUri),
    }
}

} // verus!
