use vstd::prelude::*;
use crate::error::CurveError;

verus! {

pub open spec fn is_digit(c: char) -> bool {
    '0' <= c && c <= '9'
}

pub open spec fn digit_value(c: char) -> nat {
    (c as u32 - '0' as u32) as nat
}

/// The number written by the decimal digits `s`.
pub open spec fn decimal_value(s: Seq<char>) -> nat
    decreases s.len(),
{
    if s.len() == 0 {
        0
    } else {
        decimal_value(s.drop_last()) * 10 + digit_value(s.last())
    }
}

/// `s` is a non-empty run of decimal digits.
pub open spec fn is_decimal(s: Seq<char>) -> bool {
    s.len() > 0 && forall|i: int| 0 <= i < s.len() ==> #[trigger] is_digit(s[i])
}

/// The `u128` written in decimal by `s`, if `s` is one.
pub open spec fn decimal_of(s: Seq<char>) -> Option<u128> {
    if is_decimal(s) && decimal_value(s) <= u128::MAX {
        Some(decimal_value(s) as u128)
    } else {
        None
    }
}

/// The text a buy order starts with.
pub open spec fn buy_prefix() -> Seq<char> {
    seq!['B', 'u', 'y', ' ', 'l', 't', 's']
}

/// The number of tokens a transfer message orders: `Buy lts`, any one
/// separating character, then a positive decimal number.
pub open spec fn buy_order(msg: Seq<char>) -> Result<u128, CurveError> {
    if msg.len() >= 8 && msg.subrange(0, 7) == buy_prefix() {
        match decimal_of(msg.subrange(8, msg.len() as int)) {
            Some(n) => if n > 0 {
                Ok(n)
            } else {
                Err(CurveError::InvalidMessage)
            },
            None => Err(CurveError::InvalidMessage),
        }
    } else {
        Err(CurveError::InvalidMessage)
    }
}

proof fn lemma_decimal_grows(s: Seq<char>, k: int)
    requires
        0 <= k <= s.len(),
    ensures
        decimal_value(s.subrange(0, k)) <= decimal_value(s),
    decreases s.len() - k,
{
    if k < s.len() {
        lemma_decimal_grows(s, k + 1);
        let t = s.subrange(0, k + 1);
        assert(t.drop_last() =~= s.subrange(0, k));
    } else {
        assert(s.subrange(0, k) =~= s);
    }
}

/// Reads `s` as a decimal `u128`.
pub fn parse_decimal(s: &str) -> (r: Option<u128>)
    ensures
        r == decimal_of(s@),
{
    let n = s.unicode_len();
    if n == 0 {
        return None;
    }
    let mut acc: u128 = 0;
    let mut i: usize = 0;
    while i < n
        invariant
            n == s@.len(),
            i <= n,
            forall|j: int| 0 <= j < i ==> #[trigger] is_digit(s@[j]),
            acc as nat == decimal_value(s@.subrange(0, i as int)),
        decreases n - i,
    {
        let c = s.get_char(i);
        if !('0' <= c && c <= '9') {
            assert(!is_digit(s@[i as int]));
            return None;
        }
        let d = (c as u32 - '0' as u32) as u128;
        proof {
            let t = s@.subrange(0, i + 1);
            assert(t.drop_last() =~= s@.subrange(0, i as int));
            assert(decimal_value(t) == acc * 10 + d);
        }
        let next = match acc.checked_mul(10) {
            Some(v) => match v.checked_add(d) {
                Some(w) => w,
                None => {
                    proof {
                        if is_decimal(s@) {
                            lemma_decimal_grows(s@, i + 1);
                        }
                    }
                    return None;
                },
            },
            None => {
                proof {
                    if is_decimal(s@) {
                        lemma_decimal_grows(s@, i + 1);
                    }
                }
                return None;
            },
        };
        acc = next;
        i = i + 1;
    }
    assert(s@.subrange(0, n as int) =~= s@);
    Some(acc)
}

/// Reads a transfer message as a buy order for a positive number of tokens.
pub fn parse_buy_message(msg: &str) -> (r: Result<u128, CurveError>)
    ensures
        r == buy_order(msg@),
{
    let n = msg.unicode_len();
    if n < 8 {
        return Err(CurveError::InvalidMessage);
    }
    let prefix = msg.substring_char(0, 7);
    let expected = "Buy lts";
    proof {
        reveal_strlit("Buy lts");
        assert(expected@ =~= buy_prefix());
    }
    let mut i: usize = 0;
    while i < 7
        invariant
            n == msg@.len(),
            n >= 8,
            prefix@ == msg@.subrange(0, 7),
            expected@ == buy_prefix(),
            i <= 7,
            forall|j: int| 0 <= j < i ==> prefix@[j] == buy_prefix()[j],
        decreases 7 - i,
    {
        if prefix.get_char(i) != expected.get_char(i) {
            return Err(CurveError::InvalidMessage);
        }
        i = i + 1;
    }
    assert(msg@.subrange(0, 7) =~= buy_prefix());
    let digits = msg.substring_char(8, n);
    match parse_decimal(digits) {
        Some(v) => if v > 0 {
            Ok(v)
        } else {
            Err(CurveError::InvalidMessage)
        },
        None => Err(CurveError::InvalidMessage),
    }
}

} // verus!
