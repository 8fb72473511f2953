use script_primitives::{apply_fee, parse_satoshis, InsufficientBalanceError, ParseError};

#[test]
fn parse_satoshis_reads_digits() {
    assert_eq!(parse_satoshis("12345"), Ok(12345));
    assert_eq!(parse_satoshis("0"), Ok(0));
    assert_eq!(parse_satoshis("7"), Ok(7));
    assert_eq!(parse_satoshis("2100000000000000"), Ok(2_100_000_000_000_000));
}

#[test]
fn parse_satoshis_refuses_a_sign() {
    assert_eq!(parse_satoshis("-1"), Err(ParseError));
    assert_eq!(parse_satoshis("+1"), Err(ParseError));
    assert_eq!(parse_satoshis("-"), Err(ParseError));
    assert_eq!(parse_satoshis("+"), Err(ParseError));
}

#[test]
fn parse_satoshis_refuses_letters() {
    assert_eq!(parse_satoshis("abc"), Err(ParseError));
    assert_eq!(parse_satoshis("12a"), Err(ParseError));
    assert_eq!(parse_satoshis("a12"), Err(ParseError));
    assert_eq!(parse_satoshis("0x10"), Err(ParseError));
    assert_eq!(parse_satoshis("1e3"), Err(ParseError));
}

#[test]
fn parse_satoshis_refuses_empty_text() {
    assert_eq!(parse_satoshis(""), Err(ParseError));
}

#[test]
fn parse_satoshis_refuses_whitespace() {
    assert_eq!(parse_satoshis(" 1"), Err(ParseError));
    assert_eq!(parse_satoshis("1 "), Err(ParseError));
    assert_eq!(parse_satoshis("1 2"), Err(ParseError));
    assert_eq!(parse_satoshis(" "), Err(ParseError));
    assert_eq!(parse_satoshis("1\n"), Err(ParseError));
    assert_eq!(parse_satoshis("\t1"), Err(ParseError));
}

#[test]
fn parse_satoshis_refuses_separators_and_fractions() {
    assert_eq!(parse_satoshis("1_000"), Err(ParseError));
    assert_eq!(parse_satoshis("1,000"), Err(ParseError));
    assert_eq!(parse_satoshis("1.0"), Err(ParseError));
}

#[test]
fn parse_satoshis_refuses_characters_next_to_the_digits() {
    assert_eq!(parse_satoshis("/"), Err(ParseError));
    assert_eq!(parse_satoshis(":"), Err(ParseError));
    assert_eq!(parse_satoshis("9:"), Err(ParseError));
}

#[test]
fn parse_satoshis_refuses_digits_outside_ascii() {
    assert_eq!(parse_satoshis("\u{ff11}\u{ff12}"), Err(ParseError));
    assert_eq!(parse_satoshis("1\u{e9}"), Err(ParseError));
}

#[test]
fn parse_satoshis_at_the_largest_amount() {
    assert_eq!(parse_satoshis("18446744073709551615"), Ok(u64::MAX));
    assert_eq!(parse_satoshis("18446744073709551614"), Ok(u64::MAX - 1));
}

#[test]
fn parse_satoshis_refuses_what_does_not_fit() {
    assert_eq!(parse_satoshis("18446744073709551616"), Err(ParseError));
    assert_eq!(parse_satoshis("18446744073709551620"), Err(ParseError));
    assert_eq!(parse_satoshis("99999999999999999999"), Err(ParseError));
    assert_eq!(parse_satoshis("184467440737095516150"), Err(ParseError));
    assert_eq!(parse_satoshis("100000000000000000000000000000"), Err(ParseError));
}

#[test]
fn parse_satoshis_refuses_a_bad_character_behind_too_many_digits() {
    assert_eq!(parse_satoshis("99999999999999999999999x"), Err(ParseError));
}

#[test]
fn parse_satoshis_takes_leading_zeros() {
    assert_eq!(parse_satoshis("007"), Ok(7));
    assert_eq!(parse_satoshis("0000000000000000000000000000012"), Ok(12));
    assert_eq!(
        parse_satoshis("000018446744073709551615"),
        Ok(u64::MAX)
    );
    assert_eq!(parse_satoshis("000018446744073709551616"), Err(ParseError));
}

#[test]
fn parse_satoshis_agrees_with_the_decimal_form() {
    for value in [0u64, 1, 9, 10, 99, 100, 12345, 1 << 32, u64::MAX / 10, u64::MAX] {
        assert_eq!(parse_satoshis(&format!("{}", value)), Ok(value));
    }
}

#[test]
fn apply_fee_takes_the_fee() {
    let mut balance: u64 = 100;
    assert_eq!(apply_fee(&mut balance, 30), Ok(()));
    assert_eq!(balance, 70);
}

#[test]
fn apply_fee_refuses_a_fee_above_the_balance() {
    let mut balance: u64 = 100;
    assert_eq!(
        apply_fee(&mut balance, 150),
        Err(InsufficientBalanceError { balance: 100, fee: 150 })
    );
    assert_eq!(balance, 100);
}

#[test]
fn apply_fee_may_take_everything() {
    let mut balance: u64 = 100;
    assert_eq!(apply_fee(&mut balance, 100), Ok(()));
    assert_eq!(balance, 0);
}

#[test]
fn apply_fee_of_nothing_changes_nothing() {
    let mut balance: u64 = 100;
    assert_eq!(apply_fee(&mut balance, 0), Ok(()));
    assert_eq!(balance, 100);
    let mut empty: u64 = 0;
    assert_eq!(apply_fee(&mut empty, 0), Ok(()));
    assert_eq!(empty, 0);
}

#[test]
fn apply_fee_by_one_too_much() {
    let mut balance: u64 = 100;
    assert_eq!(
        apply_fee(&mut balance, 101),
        Err(InsufficientBalanceError { balance: 100, fee: 101 })
    );
    assert_eq!(balance, 100);
    let mut empty: u64 = 0;
    assert_eq!(
        apply_fee(&mut empty, 1),
        Err(InsufficientBalanceError { balance: 0, fee: 1 })
    );
    assert_eq!(empty, 0);
}

#[test]
fn apply_fee_at_the_top_of_the_range() {
    let mut balance: u64 = u64::MAX;
    assert_eq!(apply_fee(&mut balance, u64::MAX), Ok(()));
    assert_eq!(balance, 0);
    let mut balance: u64 = u64::MAX - 1;
    assert_eq!(
        apply_fee(&mut balance, u64::MAX),
        Err(InsufficientBalanceError { balance: u64::MAX - 1, fee: u64::MAX })
    );
    assert_eq!(balance, u64::MAX - 1);
}

#[test]
fn apply_fee_twice() {
    let mut balance: u64 = 100;
    assert_eq!(apply_fee(&mut balance, 30), Ok(()));
    assert_eq!(apply_fee(&mut balance, 30), Ok(()));
    assert_eq!(balance, 40);
    assert!(apply_fee(&mut balance, 41).is_err());
    assert_eq!(balance, 40);
}
