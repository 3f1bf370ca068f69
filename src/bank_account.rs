use vstd::prelude::*;
use vstd::string::*;

use crate::errors::ApiErrorResponse;
use crate::secret::{secret_text, Secret};

verus! {

/// Longest IBAN accepted, in bytes.
pub const IBAN_MAX_LENGTH: usize = 34;

/// Length of a BACS sort code, in bytes.
pub const BACS_SORT_CODE_LENGTH: usize = 6;

/// Longest BACS account number accepted, in bytes.
pub const BACS_MAX_ACCOUNT_NUMBER_LENGTH: usize = 8;

/// The bank account into which a merchant receives open-banking payments.
#[derive(Clone, PartialEq, Eq)]
pub enum MerchantAccountData {
    Iban { iban: Secret<String>, name: String, connector_recipient_id: Option<String> },
    Bacs {
        account_number: Secret<String>,
        sort_code: Secret<String>,
        name: String,
        connector_recipient_id: Option<String>,
    },
}

/// An uppercase ASCII letter or an ASCII digit.
pub open spec fn is_upper_alnum(c: char) -> bool {
    ('A' <= c && c <= 'Z') || ('0' <= c && c <= '9')
}

/// Every character is an uppercase ASCII letter or an ASCII digit.
pub open spec fn all_upper_alnum(s: Seq<char>) -> bool {
    forall|i: int| 0 <= i < s.len() ==> is_upper_alnum(#[trigger] s[i])
}

/// Relies on `regex::Regex::new` and `Regex::is_match` with the pattern
/// `^[A-Z0-9]*$`: the pattern is a valid literal well within the size limits,
/// so it compiles, and the match tells whether the whole text is uppercase
/// ASCII letters and digits.
#[verifier::external_body]
fn match_upper_alnum(s: &str) -> (r: Option<bool>)
    ensures
        r is Some,
        r matches Some(b) ==> b == all_upper_alnum(s@),
{
    match regex::Regex::new(r"^[A-Z0-9]*$") {
        Ok(pattern) => Some(pattern.is_match(s)),
        Err(_) => None,
    }
}

/// The characters of an IBAN in checking order: the text with its first four
/// characters appended, less its first four.
pub open spec fn iban_rearranged(s: Seq<char>) -> Seq<char> {
    let head_len: int = if s.len() < 4 {
        s.len() as int
    } else {
        4
    };
    let ext = s + s.subrange(0, head_len);
    let k: int = if ext.len() >= 4 {
        ext.len() - 4
    } else {
        ext.len() as int
    };
    ext.subrange(ext.len() - k, ext.len() as int)
}

/// The decimal digits standing for one IBAN character: a letter is its
/// position in the alphabet plus ten, in two digits; a digit is itself.
pub open spec fn char_digits(c: char) -> Seq<nat> {
    if 'A' <= c && c <= 'Z' {
        let v = (c as u32 - 'A' as u32 + 10) as nat;
        seq![v / 10, v % 10]
    } else {
        seq![(c as u32 - '0' as u32) as nat]
    }
}

/// The decimal digits standing for an IBAN text.
pub open spec fn iban_digits(s: Seq<char>) -> Seq<nat>
    decreases s.len(),
{
    if s.len() == 0 {
        Seq::empty()
    } else {
        iban_digits(s.drop_last()) + char_digits(s.last())
    }
}

/// The number that a sequence of decimal digits writes.
pub open spec fn digits_value(ds: Seq<nat>) -> nat
    decreases ds.len(),
{
    if ds.len() == 0 {
        0
    } else {
        digits_value(ds.drop_last()) * 10 + ds.last()
    }
}

/// The largest number the checksum computation holds.
pub const CHECK_NUMBER_MAX: u128 = 340282366920938463463374607431768211455;

/// What checking an IBAN text concludes.
pub enum IbanVerdict {
    Valid,
    TooLong,
    NotAlphanumeric,
    WrongChecksum,
    /// The check could not be computed.
    Uncheckable,
}

/// The verdict on an IBAN: at most 34 bytes, uppercase letters and digits
/// only, and the number its rearranged characters write leaves 1 modulo 97.
pub open spec fn iban_verdict(s: Seq<char>, byte_len: nat) -> IbanVerdict {
    if byte_len > IBAN_MAX_LENGTH {
        IbanVerdict::TooLong
    } else if !all_upper_alnum(s) {
        IbanVerdict::NotAlphanumeric
    } else {
        let ds = iban_digits(iban_rearranged(s));
        if ds.len() == 0 || digits_value(ds) > CHECK_NUMBER_MAX {
            IbanVerdict::Uncheckable
        } else if digits_value(ds) % 97 != 1 {
            IbanVerdict::WrongChecksum
        } else {
            IbanVerdict::Valid
        }
    }
}

proof fn lemma_digits_value_push(ds: Seq<nat>, d: nat)
    ensures
        digits_value(ds.push(d)) == digits_value(ds) * 10 + d,
{
    assert(ds.push(d).drop_last() =~= ds);
}

proof fn lemma_iban_digits_push(s: Seq<char>, c: char)
    ensures
        iban_digits(s.push(c)) == iban_digits(s) + char_digits(c),
{
    assert(s.push(c).drop_last() =~= s);
}

/// The number that the digits of an all-alphanumeric IBAN text write, or
/// `None` where there are no digits or the number exceeds `CHECK_NUMBER_MAX`.
pub fn iban_check_number(r: &Vec<char>) -> (out: Option<u128>)
    requires
        all_upper_alnum(r@),
    ensures
        match out {
            Some(v) => iban_digits(r@).len() > 0 && v as nat == digits_value(iban_digits(r@)),
            None => iban_digits(r@).len() == 0 || digits_value(iban_digits(r@)) > CHECK_NUMBER_MAX,
        },
{
    let mut value: u128 = 0;
    let mut overflow = false;
    let mut j: usize = 0;
    while j < r.len()
        invariant
            j <= r@.len(),
            all_upper_alnum(r@),
            !overflow ==> value as nat == digits_value(iban_digits(r@.subrange(0, j as int))),
            overflow ==> digits_value(iban_digits(r@.subrange(0, j as int))) > CHECK_NUMBER_MAX,
            j > 0 ==> iban_digits(r@.subrange(0, j as int)).len() > 0,
        decreases r@.len() - j,
    {
        let c = r[j];
        assert(is_upper_alnum(r@[j as int]));
        let ghost before = iban_digits(r@.subrange(0, j as int));
        proof {
            assert(r@.subrange(0, j as int + 1) =~= r@.subrange(0, j as int).push(c));
            lemma_iban_digits_push(r@.subrange(0, j as int), c);
        }
        let (d1, d2, two): (u128, u128, bool) = if 'A' <= c && c <= 'Z' {
            let v: u128 = (c as u32 - 'A' as u32 + 10) as u128;
            (v / 10, v % 10, true)
        } else {
            ((c as u32 - '0' as u32) as u128, 0, false)
        };
        proof {
            if two {
                assert(char_digits(c) == seq![d1 as nat, d2 as nat]);
                assert(before + char_digits(c) =~= before.push(d1 as nat).push(d2 as nat));
                lemma_digits_value_push(before, d1 as nat);
                lemma_digits_value_push(before.push(d1 as nat), d2 as nat);
            } else {
                assert(char_digits(c) == seq![d1 as nat]);
                assert(before + char_digits(c) =~= before.push(d1 as nat));
                lemma_digits_value_push(before, d1 as nat);
            }
        }
        if !overflow {
            if value > (CHECK_NUMBER_MAX - d1) / 10 {
                overflow = true;
                proof {
                    assert(value as nat * 10 + d1 > CHECK_NUMBER_MAX) by (nonlinear_arith)
                        requires
                            value > (CHECK_NUMBER_MAX - d1) / 10,
                            d1 <= 9,
                    ;
                }
            } else {
                assert(value * 10 + d1 <= CHECK_NUMBER_MAX) by (nonlinear_arith)
                    requires
                        value <= (CHECK_NUMBER_MAX - d1) / 10,
                        d1 <= 9,
                ;
                value = value * 10 + d1;
                if two {
                    if value > (CHECK_NUMBER_MAX - d2) / 10 {
                        overflow = true;
                        proof {
                            assert(value as nat * 10 + d2 > CHECK_NUMBER_MAX) by (nonlinear_arith)
                                requires
                                    value > (CHECK_NUMBER_MAX - d2) / 10,
                                    d2 <= 9,
                            ;
                        }
                    } else {
                        assert(value * 10 + d2 <= CHECK_NUMBER_MAX) by (nonlinear_arith)
                            requires
                                value <= (CHECK_NUMBER_MAX - d2) / 10,
                                d2 <= 9,
                        ;
                        value = value * 10 + d2;
                    }
                }
            }
        } else {
            proof {
                let b = digits_value(before);
                assert(b * 10 + d1 as nat >= b) by (nonlinear_arith);
                if two {
                    let b1 = b * 10 + d1 as nat;
                    assert(b1 * 10 + d2 as nat >= b1) by (nonlinear_arith);
                }
            }
        }
        j = j + 1;
    }
    assert(r@.subrange(0, r@.len() as int) =~= r@);
    if overflow || j == 0 {
        None
    } else {
        Some(value)
    }
}

fn rearranged_chars(s: &str) -> (r: Vec<char>)
    requires
        s@.len() <= IBAN_MAX_LENGTH,
    ensures
        r@ == iban_rearranged(s@),
{
    let n = s.unicode_len();
    let head: usize = if n < 4 {
        n
    } else {
        4
    };
    let ext_len = n + head;
    let k: usize = if ext_len >= 4 {
        ext_len - 4
    } else {
        ext_len
    };
    let ghost ext = s@ + s@.subrange(0, head as int);
    let mut r: Vec<char> = Vec::new();
    let mut i: usize = ext_len - k;
    while i < ext_len
        invariant
            n == s@.len(),
            ext_len == n + head,
            head <= n,
            ext == s@ + s@.subrange(0, head as int),
            ext.len() == ext_len,
            k <= ext_len,
            ext_len - k <= i <= ext_len,
            r@ =~= ext.subrange(ext_len - k, i as int),
        decreases ext_len - i,
    {
        let c = if i < n {
            s.get_char(i)
        } else {
            s.get_char(i - n)
        };
        assert(ext[i as int] == c);
        assert(ext.subrange(ext_len - k, i + 1) =~= ext.subrange(ext_len - k, i as int).push(c));
        r.push(c);
        i = i + 1;
    }
    r
}

/// The error reported for an account that fails validation.
pub open spec fn is_request_error(e: ApiErrorResponse, message: Seq<char>) -> bool {
    e matches ApiErrorResponse::InvalidRequestData { message: m } && m@ == message
}

/// The byte length of a text in UTF-8.
pub open spec fn byte_len(s: Seq<char>) -> nat {
    vstd::utf8::encode_utf8(s).len()
}

/// Validates the bank account a merchant receives payments into: an IBAN of
/// at most 34 uppercase letters and digits whose checksum holds, or a BACS
/// account number of at most 8 bytes with a 6-byte sort code. An IBAN whose
/// check number is empty or exceeds `CHECK_NUMBER_MAX` cannot be checked,
/// which is an internal error.
pub fn validate_bank_account_data(data: &MerchantAccountData) -> (r: Result<(), ApiErrorResponse>)
    ensures
        match *data {
            MerchantAccountData::Iban { iban, .. } => match iban_verdict(
                secret_text(iban),
                byte_len(secret_text(iban)),
            ) {
                IbanVerdict::Valid => r is Ok,
                IbanVerdict::TooLong => r matches Err(e) && is_request_error(
                    e,
                    "IBAN length must be up to 34 characters"@,
                ),
                IbanVerdict::NotAlphanumeric => r matches Err(e) && is_request_error(
                    e,
                    "IBAN data must be alphanumeric"@,
                ),
                IbanVerdict::WrongChecksum => r matches Err(e) && is_request_error(e, "Invalid IBAN"@),
                IbanVerdict::Uncheckable => r == Err::<(), ApiErrorResponse>(
                    ApiErrorResponse::InternalServerError,
                ),
            },
            MerchantAccountData::Bacs { account_number, sort_code, .. } => if byte_len(
                secret_text(account_number),
            ) > BACS_MAX_ACCOUNT_NUMBER_LENGTH || byte_len(secret_text(sort_code))
                != BACS_SORT_CODE_LENGTH {
                r matches Err(e) && is_request_error(e, "Invalid BACS numbers"@)
            } else {
                r is Ok
            },
        },
{
    match data {
        MerchantAccountData::Iban { iban, .. } => {
            let s = iban.expose().as_str();
            let bytes = s.as_bytes().len();
            if bytes > IBAN_MAX_LENGTH {
                return Err(
                    ApiErrorResponse::InvalidRequestData {
                        message: String::from_str("IBAN length must be up to 34 characters"),
                    },
                );
            }
            let alphanumeric = match match_upper_alnum(s) {
                Some(b) => b,
                None => {
                    return Err(ApiErrorResponse::InternalServerError);
                },
            };
            if !alphanumeric {
                return Err(
                    ApiErrorResponse::InvalidRequestData {
                        message: String::from_str("IBAN data must be alphanumeric"),
                    },
                );
            }
            proof {
                assert(vstd::utf8::is_ascii_chars(s@));
                vstd::utf8::is_ascii_chars_encode_utf8(s@);
            }
            let rearranged = rearranged_chars(s);
            proof {
                let rs = iban_rearranged(s@);
                assert forall|i: int| 0 <= i < rs.len() implies is_upper_alnum(#[trigger] rs[i]) by {
                    let head_len: int = if s@.len() < 4 { s@.len() as int } else { 4 };
                    let ext = s@ + s@.subrange(0, head_len);
                    let k: int = if ext.len() >= 4 { ext.len() - 4 } else { ext.len() as int };
                    let idx = ext.len() - k + i;
                    if idx < s@.len() {
                        assert(rs[i] == s@[idx]);
                    } else {
                        assert(rs[i] == s@[idx - s@.len()]);
                    }
                }
            }
            match iban_check_number(&rearranged) {
                None => Err(ApiErrorResponse::InternalServerError),
                Some(num) => {
                    if num % 97 != 1 {
                        Err(ApiErrorResponse::InvalidRequestData { message: String::from_str("Invalid IBAN") })
                    } else {
                        Ok(())
                    }
                },
            }
        },
        MerchantAccountData::Bacs { account_number, sort_code, .. } => {
            if account_number.expose().as_str().as_bytes().len() > BACS_MAX_ACCOUNT_NUMBER_LENGTH
                || sort_code.expose().as_str().as_bytes().len() != BACS_SORT_CODE_LENGTH {
                Err(ApiErrorResponse::InvalidRequestData { message: String::from_str("Invalid BACS numbers") })
            } else {
                Ok(())
            }
        },
    }
}

} // verus!
