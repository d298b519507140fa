//! Card expiry dates in the two-digit form the gateway expects.
use vstd::prelude::*;
use crate::errors::ConnectorError;
use crate::router_data::Card;
use crate::text::{digit, digit_char};
use vstd::utf8::{encode_utf8, is_char_boundary};

verus! {

pub open spec fn is_digit(c: char) -> bool {
    '0' <= c && c <= '9'
}

pub open spec fn digit_value(c: char) -> nat {
    ((c as u32) - ('0' as u32)) as nat
}

/// The value of a string of decimal digits, most significant first.
pub open spec fn digits_value(s: Seq<char>) -> nat
    decreases s.len(),
{
    if s.len() == 0 {
        0
    } else {
        digits_value(s.drop_last()) * 10 + digit_value(s.last())
    }
}

/// A string without its leading `+`, if it has one.
pub open spec fn unsigned_digits(s: Seq<char>) -> Seq<char> {
    if s.len() > 0 && s[0] == '+' { s.drop_first() } else { s }
}

/// The value `u8::from_str` reads from a string: an optional `+`, then one
/// or more decimal digits whose value fits in a byte.
pub open spec fn parse_u8(s: Seq<char>) -> Option<nat> {
    let d = unsigned_digits(s);
    if d.len() > 0 && (forall|i: int| 0 <= i < d.len() ==> is_digit(#[trigger] d[i])) && digits_value(d) <= 255 {
        Some(digits_value(d))
    } else {
        None
    }
}

/// The two-digit form of an expiry month, when the month reads as 1 to 12.
pub open spec fn two_digit_month(s: Seq<char>) -> Option<Seq<char>> {
    match parse_u8(s) {
        Some(m) => if 1 <= m && m <= 12 {
            Some(seq![digit_char(m / 10), digit_char(m % 10)])
        } else {
            None
        },
        None => None,
    }
}

/// The last two bytes of an expiry year's UTF-8 text, when it has at least
/// two bytes and they start at a character boundary.
pub open spec fn two_digit_year(s: Seq<char>) -> Option<Seq<u8>> {
    let b = encode_utf8(s);
    if b.len() >= 2 && is_char_boundary(b, b.len() - 2) {
        Some(b.subrange(b.len() - 2, b.len() as int))
    } else {
        None
    }
}

proof fn lemma_digits_value_prefix(s: Seq<char>, i: int)
    requires
        0 <= i <= s.len(),
    ensures
        digits_value(s.take(i)) <= digits_value(s),
    decreases s.len() - i,
{
    if i < s.len() {
        lemma_digits_value_prefix(s, i + 1);
        assert(s.take(i + 1).drop_last() =~= s.take(i));
    } else {
        assert(s.take(i) =~= s);
    }
}

/// Reads a string the way `u8::from_str` does.
pub fn parse_u8_decimal(s: &str) -> (r: Option<u8>)
    ensures
        match r {
            Some(v) => parse_u8(s@) == Some(v as nat),
            None => parse_u8(s@) is None,
        },
{
    let n = s.unicode_len();
    let mut start: usize = 0;
    if n > 0 && s.get_char(0) == '+' {
        start = 1;
    }
    let ghost d = unsigned_digits(s@);
    assert(d =~= s@.skip(start as int));
    if start >= n {
        return None;
    }
    let mut acc: u64 = 0;
    let mut i: usize = start;
    while i < n
        invariant
            n == s@.len(),
            start <= i <= n,
            d == s@.skip(start as int),
            d == unsigned_digits(s@),
            forall|j: int| 0 <= j < i - start ==> is_digit(#[trigger] d[j]),
            acc == digits_value(d.take(i - start)),
            acc <= 255,
        decreases n - i,
    {
        let c = s.get_char(i);
        if !('0' <= c && c <= '9') {
            proof {
                assert(!is_digit(d[i - start]));
                assert(!(forall|j: int| 0 <= j < d.len() ==> is_digit(#[trigger] d[j])));
            }
            return None;
        }
        let v: u64 = (c as u32 - '0' as u32) as u64;
        proof {
            assert(d.take(i - start + 1).drop_last() =~= d.take(i - start));
            assert(d[i - start] == c);
        }
        acc = acc * 10 + v;
        i = i + 1;
        if acc > 255 {
            proof {
                lemma_digits_value_prefix(d, i - start);
                assert(digits_value(d) > 255);
            }
            return None;
        }
    }
    proof {
        assert(d.take(i - start) =~= d);
    }
    Some(acc as u8)
}

impl Card {
    /// The expiry month as two digits, `01` to `12`.
    pub fn get_card_expiry_month_2_digit(&self) -> (res: Result<String, ConnectorError>)
        ensures
            match two_digit_month(self.card_exp_month@) {
                Some(m) => res matches Ok(s) && s@ == m,
                None => res matches Err(ConnectorError::InvalidDataValue { field_name })
                    && field_name@ == "payment_method_data.card.card_exp_month"@,
            },
    {
        match parse_u8_decimal(self.card_exp_month.as_str()) {
            Some(m) => {
                if 1 <= m && m <= 12 {
                    let mut s = String::new();
                    s.push(digit((m / 10) as u64));
                    s.push(digit((m % 10) as u64));
                    proof {
                        assert(s@ =~= seq![digit_char((m / 10) as nat), digit_char((m % 10) as nat)]);
                    }
                    Ok(s)
                } else {
                    Err(ConnectorError::InvalidDataValue {
                        field_name: String::from_str("payment_method_data.card.card_exp_month"),
                    })
                }
            },
            None => Err(ConnectorError::InvalidDataValue {
                field_name: String::from_str("payment_method_data.card.card_exp_month"),
            }),
        }
    }

    /// The expiry year's last two bytes, as text.
    pub fn get_card_expiry_year_2_digit(&self) -> (res: Result<String, ConnectorError>)
        ensures
            match two_digit_year(self.card_exp_year@) {
                Some(y) => res matches Ok(s) && encode_utf8(s@) == y,
                None => res matches Err(ConnectorError::RequestEncodingFailed),
            },
    {
        let year = self.card_exp_year.as_str();
        let n = year.as_bytes().len();
        if n < 2 {
            return Err(ConnectorError::RequestEncodingFailed);
        }
        if !year.is_char_boundary(n - 2) {
            return Err(ConnectorError::RequestEncodingFailed);
        }
        let (_, last) = year.split_at(n - 2);
        Ok(last.to_owned())
    }
}

} // verus!
