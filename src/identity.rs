//! Canonical text of a client identity: `{counter}V{base64(short key)}`.
use vstd::prelude::*;

verus! {

use crate::b64::{base64_of, standard_encode};

/// The decimal digit for `d`.
pub open spec fn digit_char(d: nat) -> char {
    if d == 0 {
        '0'
    } else if d == 1 {
        '1'
    } else if d == 2 {
        '2'
    } else if d == 3 {
        '3'
    } else if d == 4 {
        '4'
    } else if d == 5 {
        '5'
    } else if d == 6 {
        '6'
    } else if d == 7 {
        '7'
    } else if d == 8 {
        '8'
    } else {
        '9'
    }
}

/// Whether `c` is a decimal digit.
pub open spec fn is_digit(c: char) -> bool {
    '0' <= c <= '9'
}

/// Decimal text of `n`, without leading zeros.
pub open spec fn decimal_of(n: nat) -> Seq<char>
    decreases n,
{
    if n < 10 {
        seq![digit_char(n)]
    } else {
        decimal_of(n / 10).push(digit_char(n % 10))
    }
}

/// Canonical identity text for a proof-of-work counter and a short key.
pub open spec fn identity_text(counter: nat, short_key: Seq<u8>) -> Seq<char> {
    decimal_of(counter) + seq!['V'] + base64_of(short_key)
}

fn digit_str(d: u64) -> (r: &'static str)
    requires
        d < 10,
    ensures
        r@ == seq![digit_char(d as nat)],
{
    proof {
        reveal_strlit("0");
        reveal_strlit("1");
        reveal_strlit("2");
        reveal_strlit("3");
        reveal_strlit("4");
        reveal_strlit("5");
        reveal_strlit("6");
        reveal_strlit("7");
        reveal_strlit("8");
        reveal_strlit("9");
    }
    if d == 0 {
        "0"
    } else if d == 1 {
        "1"
    } else if d == 2 {
        "2"
    } else if d == 3 {
        "3"
    } else if d == 4 {
        "4"
    } else if d == 5 {
        "5"
    } else if d == 6 {
        "6"
    } else if d == 7 {
        "7"
    } else if d == 8 {
        "8"
    } else {
        "9"
    }
}

/// Decimal text of `n`.
pub fn decimal_string(n: u64) -> (r: String)
    ensures
        r@ == decimal_of(n as nat),
    decreases n,
{
    if n < 10 {
        String::from_str(digit_str(n))
    } else {
        let mut s = decimal_string(n / 10);
        s.append(digit_str(n % 10));
        assert(s@ =~= decimal_of(n as nat));
        s
    }
}

/// Canonical text of an identity with proof-of-work `counter` and short key
/// `short_key`.
pub fn identity_to_string(counter: u64, short_key: &[u8]) -> (r: String)
    requires
        short_key@.len() <= usize::MAX / 2,
    ensures
        r@ == identity_text(counter as nat, short_key@),
{
    let mut s = decimal_string(counter);
    proof {
        reveal_strlit("V");
    }
    s.append("V");
    let key = standard_encode(short_key);
    s.append(key.as_str());
    assert(s@ =~= identity_text(counter as nat, short_key@));
    s
}

/// The decimal text of any counter is a non-empty run of digits.
pub proof fn lemma_decimal_digits(n: nat)
    ensures
        decimal_of(n).len() >= 1,
        forall|i: int| 0 <= i < decimal_of(n).len() ==> is_digit(#[trigger] decimal_of(n)[i]),
    decreases n,
{
    if n >= 10 {
        lemma_decimal_digits(n / 10);
    }
}

/// Identity text is a run of digits, then `V`, then the key's base64 text.
pub proof fn lemma_identity_text_form(counter: nat, short_key: Seq<u8>)
    ensures
        ({
            let t = identity_text(counter, short_key);
            let d = decimal_of(counter).len() as int;
            &&& 1 <= d < t.len()
            &&& forall|i: int| 0 <= i < d ==> is_digit(#[trigger] t[i])
            &&& t[d as int] == 'V'
            &&& t.subrange(d + 1, t.len() as int) == base64_of(short_key)
        }),
{
    lemma_decimal_digits(counter);
    let t = identity_text(counter, short_key);
    let d = decimal_of(counter).len() as int;
    assert(t.subrange(d + 1, t.len() as int) =~= base64_of(short_key));
    assert forall|i: int| 0 <= i < d implies is_digit(#[trigger] t[i]) by {
        assert(t[i] == decimal_of(counter)[i]);
    }
}

} // verus!
