//! Amounts in satoshis: reading one from text, and taking a fee from a
//! balance.
//!
//! Text is modelled by its UTF-8 bytes.

use vstd::prelude::*;
use vstd::string::*;

verus! {

/// An ASCII decimal digit, `0`-`9`.
pub open spec fn is_decimal_digit(b: u8) -> bool {
    0x30 <= b <= 0x39
}

/// Every byte of the text is a decimal digit.
pub open spec fn all_decimal_digits(text: Seq<u8>) -> bool {
    forall|i: int| 0 <= i < text.len() ==> is_decimal_digit(#[trigger] text[i])
}

/// Text made of decimal digits alone, and of at least one.
pub open spec fn is_decimal(text: Seq<u8>) -> bool {
    text.len() > 0 && all_decimal_digits(text)
}

/// The number that decimal text stands for, however large.
pub open spec fn decimal_value(text: Seq<u8>) -> nat
    recommends
        all_decimal_digits(text),
    decreases text.len(),
{
    if text.len() == 0 {
        0
    } else {
        (10 * decimal_value(text.drop_last()) + (text.last() - 0x30)) as nat
    }
}

/// Text that is an amount: decimal, with a value that fits in 64 bits.
pub open spec fn is_amount(text: Seq<u8>) -> bool {
    is_decimal(text) && decimal_value(text) <= u64::MAX
}

/// The text is no amount.
#[derive(Debug, Clone, Copy, PartialEq, Eq)]
pub struct ParseError;

/// A fee that is larger than the balance it was to be taken from.
#[derive(Debug, Clone, Copy, PartialEq, Eq)]
pub struct InsufficientBalanceError {
    /// The balance, which was left as it was.
    pub balance: u64,
    /// The fee that was asked for.
    pub fee: u64,
}

/// A longer run of leading digits never stands for a smaller number.
proof fn lemma_decimal_value_grows(text: Seq<u8>, i: int)
    requires
        0 <= i <= text.len(),
        all_decimal_digits(text),
    ensures
        decimal_value(text.take(i)) <= decimal_value(text),
    decreases text.len() - i,
{
    if i == text.len() {
        assert(text.take(i) =~= text);
    } else {
        let shorter = text.drop_last();
        assert(shorter.take(i) =~= text.take(i));
        lemma_decimal_value_grows(shorter, i);
    }
}

/// Reads an amount of satoshis: decimal digits and nothing else, not even a
/// sign or a space, standing for a number that fits in 64 bits.
pub fn parse_satoshis(input: &str) -> (r: Result<u64, ParseError>)
    ensures
        r is Ok <==> is_amount(input.spec_bytes()),
        r matches Ok(value) ==> value == decimal_value(input.spec_bytes()),
{
    let bytes: &[u8] = input.as_bytes();
    let n: usize = bytes.len();
    if n == 0 {
        return Err(ParseError);
    }
    let mut value: u64 = 0;
    let mut i: usize = 0;
    while i < n
        invariant
            bytes@ == input.spec_bytes(),
            n == bytes@.len(),
            0 < n,
            i <= n,
            all_decimal_digits(bytes@.take(i as int)),
            value == decimal_value(bytes@.take(i as int)),
        decreases n - i,
    {
        let b: u8 = bytes[i];
        if b < 0x30 || b > 0x39 {
            return Err(ParseError);
        }
        let digit: u64 = (b - 0x30) as u64;
        proof {
            let longer = bytes@.take(i + 1);
            assert(longer.drop_last() =~= bytes@.take(i as int));
            assert(longer.last() == b);
            assert(all_decimal_digits(longer)) by {
                assert forall|j: int| 0 <= j < longer.len() implies is_decimal_digit(
                    #[trigger] longer[j],
                ) by {
                    if j < i {
                        assert(longer[j] == bytes@.take(i as int)[j]);
                    }
                }
            }
            assert(decimal_value(longer) == 10 * value + digit);
        }
        if value > (u64::MAX - digit) / 10 {
            proof {
                if is_decimal(bytes@) {
                    lemma_decimal_value_grows(bytes@, i + 1);
                }
            }
            return Err(ParseError);
        }
        value = value * 10 + digit;
        i += 1;
    }
    proof {
        assert(bytes@.take(n as int) =~= bytes@);
    }
    Ok(value)
}

/// Takes `fee` from `balance`. A fee larger than the balance is refused and
/// the balance stays as it was.
pub fn apply_fee(balance: &mut u64, fee: u64) -> (r: Result<(), InsufficientBalanceError>)
    ensures
        r is Ok <==> fee <= *old(balance),
        match r {
            Ok(_) => *final(balance) == *old(balance) - fee,
            Err(e) => {
                &&& *final(balance) == *old(balance)
                &&& e.balance == *old(balance)
                &&& e.fee == fee
            },
        },
{
    if fee > *balance {
        return Err(InsufficientBalanceError { balance: *balance, fee });
    }
    *balance = *balance - fee;
    Ok(())
}

} // verus!
