use dex_core::currency::{BaseCurrency, Currency, Token};
use dex_core::Error;

const ADDRESS_ONE: &str = "0x0000000000000000000000000000000000000001";
const ADDRESS_TWO: &str = "0x0000000000000000000000000000000000000002";
const DAI_MAINNET: &str = "0x6B175474E89094C44Da98b954EedeAC495271d0F";

fn make(chain: u32, address: &str, decimals: u32, symbol: &str, name: &str) -> Token {
    Token::new(
        chain,
        address.to_string(),
        decimals,
        Some(symbol.to_string()),
        Some(name.to_string()),
        None,
        None,
    )
}

#[test]
fn test_token() {
    let token = make(2, ADDRESS_ONE, 18, "Test", "Te");
    let token_1 = make(2, ADDRESS_TWO, 18, "Test", "Te");
    assert_eq!(token.address, *ADDRESS_ONE);
    assert_eq!(token_1.address, *ADDRESS_TWO);
}

#[test]
#[should_panic]
fn test_expect_revert_diff_chain_id() {
    let token = make(4, ADDRESS_ONE, 25, "Test", "Te");
    let token_1 = make(3, ADDRESS_ONE, 25, "Test", "Te");
    assert!(
        token.equals(&token_1),
        "SHOULD_FAILS_EVEN_THOUGH_CHAIN_ID_IS_DIFFERENT"
    );
}

#[test]
fn test_diff_name() {
    let token = make(4, ADDRESS_ONE, 25, "Test", "TeW");
    let token_1 = make(4, ADDRESS_ONE, 25, "Test", "Te");
    assert!(token.equals(&token_1), "true even if names differ");
}

#[test]
fn test_diff_symbol() {
    let token = make(4, ADDRESS_ONE, 25, "Test", "Te");
    let token_1 = make(4, ADDRESS_ONE, 25, "WETest", "Te");
    assert!(token.equals(&token_1), "true even if symbols differ");
}

#[test]
#[should_panic]
fn test_expect_revert_diff_address() {
    let token = make(4, ADDRESS_ONE, 25, "Test", "Te");
    let token_1 = make(4, DAI_MAINNET, 25, "Test", "Te");
    assert!(
        token.equals(&token_1),
        "SHOULD_FAILS_EVEN_THOUGH_ADDRESS_IS_DIFFERENT"
    );
}

#[test]
fn test_assert_both_tokens() {
    let token = make(4, ADDRESS_ONE, 25, "Test", "Te");
    let token_1 = make(4, DAI_MAINNET, 25, "Test", "Te");
    assert_eq!(token.equals(&token_1), token_1.equals(&token), "SHOULD_FAILS_EVEN_THOUGH_ADDRESS_IS_DIFFERENT, SHOULD ONLY REVERT FOR DIFFERENT CHAIN_ID");
}

#[test]
fn test_equals_ignores_address_case() {
    let lower = make(1, "0xabcdef0000000000000000000000000000000001", 18, "A", "A");
    let upper = make(1, "0xABCDEF0000000000000000000000000000000001", 18, "B", "B");
    assert!(lower.equals(&upper));
    assert!(upper.equals(&lower));
}

#[test]
fn test_equals_reflexive_and_symmetric() {
    let a = make(7, ADDRESS_ONE, 9, "A", "A");
    let b = make(7, ADDRESS_ONE, 12, "B", "B");
    assert!(a.equals(&a));
    assert_eq!(a.equals(&b), b.equals(&a));
    let native_a = Currency::Native(BaseCurrency::new(7, 18, None, None));
    let native_b = Currency::Native(BaseCurrency::new(7, 9, None, None));
    assert!(native_a.equals(&native_a));
    assert!(native_a.equals(&native_b));
    assert!(!native_a.equals(&Currency::Token(a.duplicate())));
    assert!(!Currency::Token(a).equals(&native_a));
}

#[test]
fn test_sorts_before_by_lowercase_address() {
    let one = make(4, ADDRESS_ONE, 25, "T1", "T1");
    let two = make(4, ADDRESS_TWO, 25, "T2", "T2");
    assert!(one.sorts_before(&two));
    assert!(!two.sorts_before(&one));
}

#[test]
fn test_try_sorts_before_rejects_bad_comparisons() {
    let one = make(4, ADDRESS_ONE, 25, "T1", "T1");
    let other_chain = make(5, ADDRESS_TWO, 25, "T2", "T2");
    assert_eq!(
        one.try_sorts_before(&other_chain).unwrap_err(),
        Error::InvalidComparison
    );
    let same_addr_other_case = make(
        4,
        "0x0000000000000000000000000000000000000001",
        25,
        "T3",
        "T3",
    );
    assert_eq!(
        one.try_sorts_before(&same_addr_other_case).unwrap_err(),
        Error::InvalidComparison
    );
    let two = make(4, ADDRESS_TWO, 25, "T2", "T2");
    assert_eq!(one.try_sorts_before(&two).unwrap(), true);
    assert_eq!(two.try_sorts_before(&one).unwrap(), false);
}

#[test]
fn test_try_new_rejects_out_of_range() {
    let bad_decimals = Token::try_new(
        4,
        ADDRESS_ONE.to_string(),
        256,
        Some("Test".to_string()),
        Some("Te".to_string()),
        None,
        None,
    );
    assert_eq!(bad_decimals.unwrap_err(), Error::InvalidConstruction);
    let bad_chain = Token::try_new(
        0,
        ADDRESS_ONE.to_string(),
        18,
        None,
        None,
        None,
        None,
    );
    assert_eq!(bad_chain.unwrap_err(), Error::InvalidConstruction);
    let good = Token::try_new(4, ADDRESS_ONE.to_string(), 25, None, None, None, None);
    assert_eq!(good.unwrap().address, *ADDRESS_ONE);
}

#[test]
fn test_wrapped_is_identity() {
    let token = make(2, ADDRESS_ONE, 18, "Test", "Te");
    let wrapped = token.wrapped();
    assert_eq!(wrapped.address, token.address);
    assert!(token.equals(&wrapped));
    assert!(token.is_token());
    assert!(!token.is_native());
}
