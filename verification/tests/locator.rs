use tiny_spl::encoder::get_tiny_spl_metadata;
use tiny_spl::locator::{amount_from_pairs, get_token_amount, parse_amount, TokenAmountError};
use tiny_spl::state::{CnftMetadata, TokenProgramVersion};

fn with_uri(uri: &str) -> CnftMetadata {
    CnftMetadata {
        name: String::new(),
        symbol: String::new(),
        uri: uri.to_string(),
        seller_fee_basis_points: 0,
        primary_sale_happened: false,
        is_mutable: true,
        edition_nonce: None,
        token_standard: None,
        collection: None,
        uses: None,
        token_program_version: TokenProgramVersion::Original,
        creators: vec![],
    }
}

fn pair(name: &str, value: &str) -> (String, String) {
    (name.to_string(), value.to_string())
}

#[test]
fn amount_comes_back_from_the_locator_of_a_balance() {
    let mut mint = [0u8; 32];
    for (i, b) in mint.iter_mut().enumerate() {
        *b = (i as u8).wrapping_mul(91).wrapping_add(17);
    }
    let mut amount: u64 = 0;
    for step in 0..100u64 {
        let m = get_tiny_spl_metadata("ABC".to_string(), amount, mint, [2u8; 32]);
        assert_eq!(get_token_amount(&m), Ok(amount));
        amount = amount.wrapping_mul(13).wrapping_add(step * 7 + 1);
    }
    for amount in [0, 1, 9, 10, 999, 1_000, 1_234_567, u64::MAX - 1, u64::MAX] {
        let m = get_tiny_spl_metadata("T\0".to_string(), amount, [0u8; 32], [2u8; 32]);
        assert_eq!(get_token_amount(&m), Ok(amount));
    }
}

#[test]
fn amount_is_read_from_the_query() {
    assert_eq!(
        get_token_amount(&with_uri("https://metadata.tinys.pl/collection?id=x&amount=900")),
        Ok(900)
    );
    assert_eq!(
        get_token_amount(&with_uri("https://example.com/?amount=5#fragment")),
        Ok(5)
    );
    assert_eq!(
        get_token_amount(&with_uri("https://example.com/?amount=%31%32")),
        Ok(12)
    );
    assert_eq!(
        get_token_amount(&with_uri("https://example.com/?amount=7&amount=8")),
        Ok(7)
    );
}

#[test]
fn locator_that_is_no_url_is_refused() {
    assert_eq!(
        get_token_amount(&with_uri("")),
        Err(TokenAmountError::InvalidUri)
    );
    assert_eq!(
        get_token_amount(&with_uri("collection?id=x&amount=900")),
        Err(TokenAmountError::InvalidUri)
    );
    assert_eq!(
        get_token_amount(&with_uri("https://")),
        Err(TokenAmountError::InvalidUri)
    );
}

#[test]
fn locator_without_an_amount_is_refused() {
    assert_eq!(
        get_token_amount(&with_uri("https://metadata.tinys.pl/collection?id=x")),
        Err(TokenAmountError::MissingAmount)
    );
    assert_eq!(
        get_token_amount(&with_uri("https://metadata.tinys.pl/collection")),
        Err(TokenAmountError::MissingAmount)
    );
    assert_eq!(
        get_token_amount(&with_uri("https://metadata.tinys.pl/collection?Amount=5")),
        Err(TokenAmountError::MissingAmount)
    );
    assert_eq!(
        get_token_amount(&with_uri("https://metadata.tinys.pl/collection#amount=5")),
        Err(TokenAmountError::MissingAmount)
    );
}

#[test]
fn locator_whose_amount_is_no_number_is_refused() {
    for uri in [
        "https://metadata.tinys.pl/collection?id=x&amount=",
        "https://metadata.tinys.pl/collection?id=x&amount",
        "https://metadata.tinys.pl/collection?id=x&amount=12a",
        "https://metadata.tinys.pl/collection?id=x&amount=-1",
        "https://metadata.tinys.pl/collection?id=x&amount=1.5",
        "https://metadata.tinys.pl/collection?id=x&amount=18446744073709551616",
        "https://metadata.tinys.pl/collection?id=x&amount=+5",
        "https://metadata.tinys.pl/collection?id=x&amount=x&amount=5",
    ] {
        assert_eq!(
            get_token_amount(&with_uri(uri)),
            Err(TokenAmountError::InvalidAmount)
        );
    }
}

#[test]
fn numbers_are_read_as_the_standard_library_reads_them() {
    for text in [
        "0",
        "7",
        "007",
        "+5",
        "+0",
        "18446744073709551615",
        "18446744073709551616",
        "99999999999999999999999",
        "",
        "+",
        "-",
        "-5",
        "++5",
        "5+",
        "1 ",
        " 1",
        "1_000",
        "1,000",
        "12a",
        "a12",
        "0x10",
        "٣",
        "１",
        "1e3",
        "+18446744073709551615",
        "00000000000000000000000000001",
    ] {
        assert_eq!(parse_amount(text), text.parse::<u64>().ok());
    }
    assert_eq!(parse_amount("1234567"), Some(1_234_567));
    assert_eq!(parse_amount("+5"), Some(5));
    assert_eq!(parse_amount("18446744073709551616"), None);
    assert_eq!(parse_amount(""), None);
}

#[test]
fn first_pair_named_amount_decides() {
    assert_eq!(
        amount_from_pairs(&vec![pair("id", "x"), pair("amount", "900")]),
        Ok(900)
    );
    assert_eq!(
        amount_from_pairs(&vec![pair("amount", "1"), pair("amount", "2")]),
        Ok(1)
    );
    assert_eq!(
        amount_from_pairs(&vec![pair("amount", "x"), pair("amount", "2")]),
        Err(TokenAmountError::InvalidAmount)
    );
    assert_eq!(
        amount_from_pairs(&vec![pair("id", "amount"), pair("amounts", "2")]),
        Err(TokenAmountError::MissingAmount)
    );
    assert_eq!(amount_from_pairs(&vec![]), Err(TokenAmountError::MissingAmount));
}

#[test]
fn locator_of_a_balance_parses_into_its_two_parameters() {
    let mut mint = [0u8; 32];
    for (i, b) in mint.iter_mut().enumerate() {
        *b = (i as u8).wrapping_mul(59).wrapping_add(3);
    }
    for (key, amount) in [([0u8; 32], 0u64), (mint, 1_234_567), ([255u8; 32], u64::MAX)] {
        let m = get_tiny_spl_metadata("ABC".to_string(), amount, key, [2u8; 32]);
        let parsed: Vec<(String, String)> =
            url::Url::parse(&m.uri).unwrap().query_pairs().into_owned().collect();
        let text = anchor_lang::prelude::Pubkey::new_from_array(key).to_string();
        assert_eq!(parsed, vec![pair("id", &text), pair("amount", &amount.to_string())]);
        assert_eq!(amount_from_pairs(&parsed), Ok(amount));
    }
}
