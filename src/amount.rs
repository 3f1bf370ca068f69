use vstd::prelude::*;
use vstd::string::*;

use crate::enums::{minor_digits, Currency};
use crate::errors::ConnectorError;

verus! {

/// The decimal digit `d` as a character.
pub open spec fn digit_char(d: nat) -> char {
    if d == 0 {
        '0'
    } else if d == 1 {
        '1'
    } else if d == 2 {
        '2'
    } else if d == 3 {
        '3'
    } else if d == 4 {
        '4'
    } else if d == 5 {
        '5'
    } else if d == 6 {
        '6'
    } else if d == 7 {
        '7'
    } else if d == 8 {
        '8'
    } else {
        '9'
    }
}

/// The decimal notation of `n`, without leading zeros.
pub open spec fn decimal_text(n: nat) -> Seq<char>
    decreases n,
{
    if n < 10 {
        seq![digit_char(n)]
    } else {
        decimal_text(n / 10) + seq![digit_char(n % 10)]
    }
}

/// An amount given in hundredths of the base unit, written with two decimals.
pub open spec fn hundredths_text(h: nat) -> Seq<char> {
    decimal_text(h / 100) + "."@ + seq![digit_char((h % 100) / 10), digit_char(h % 10)]
}

/// An amount in minor units expressed in hundredths of the currency's base
/// unit: thousandths are rounded half up.
pub open spec fn base_unit_hundredths(amount: nat, c: Currency) -> nat {
    if minor_digits(c) == 0 {
        amount * 100
    } else if minor_digits(c) == 3 {
        (amount + 5) / 10
    } else {
        amount
    }
}

/// An amount in minor units written in the currency's base unit with two
/// decimals (500 cents as "5.00", 500 yen as "500.00").
pub open spec fn base_unit_text(amount: nat, c: Currency) -> Seq<char> {
    hundredths_text(base_unit_hundredths(amount, c))
}

/// The largest amount, in minor units, that can be written in a base unit.
pub const MAX_CONVERTIBLE_AMOUNT: i64 = 4294967295;

fn digit_text(d: u64) -> (r: &'static str)
    requires
        d < 10,
    ensures
        r@ =~= seq![digit_char(d as nat)],
{
    proof {
        reveal_strlit("0");
        reveal_strlit("1");
        reveal_strlit("2");
        reveal_strlit("3");
        reveal_strlit("4");
        reveal_strlit("5");
        reveal_strlit("6");
        reveal_strlit("7");
        reveal_strlit("8");
        reveal_strlit("9");
    }
    if d == 0 {
        "0"
    } else if d == 1 {
        "1"
    } else if d == 2 {
        "2"
    } else if d == 3 {
        "3"
    } else if d == 4 {
        "4"
    } else if d == 5 {
        "5"
    } else if d == 6 {
        "6"
    } else if d == 7 {
        "7"
    } else if d == 8 {
        "8"
    } else {
        "9"
    }
}

/// The decimal notation of `n`.
pub fn decimal_string(n: u64) -> (r: String)
    ensures
        r@ == decimal_text(n as nat),
    decreases n,
{
    if n < 10 {
        String::from_str(digit_text(n))
    } else {
        let mut s = decimal_string(n / 10);
        s.append(digit_text(n % 10));
        s
    }
}

/// Writes an amount given in hundredths with two decimals.
pub fn hundredths_string(h: u64) -> (r: String)
    ensures
        r@ == hundredths_text(h as nat),
{
    let mut s = decimal_string(h / 100);
    s.append(".");
    s.append(digit_text((h % 100) / 10));
    s.append(digit_text(h % 10));
    assert(s@ =~= hundredths_text(h as nat));
    s
}

/// Converts an amount in minor units to the currency's base unit, written
/// with two decimals. Fails where the amount is negative or exceeds
/// `MAX_CONVERTIBLE_AMOUNT`.
pub fn to_currency_base_unit(amount: i64, currency: Currency) -> (r: Result<String, ConnectorError>)
    ensures
        r is Ok <==> 0 <= amount <= MAX_CONVERTIBLE_AMOUNT,
        r matches Ok(s) ==> s@ == base_unit_text(amount as nat, currency),
        r matches Err(e) ==> e == ConnectorError::ParsingFailed,
{
    if amount < 0 || amount > MAX_CONVERTIBLE_AMOUNT {
        return Err(ConnectorError::ParsingFailed);
    }
    let a = amount as u64;
    let hundredths: u64 = if currency.is_zero_decimal_currency() {
        a * 100
    } else if currency.is_three_decimal_currency() {
        (a + 5) / 10
    } else {
        a
    };
    Ok(hundredths_string(hundredths))
}

} // verus!
