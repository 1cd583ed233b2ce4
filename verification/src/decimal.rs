//! Decimal digits: the unsigned integer syntax of `u64::from_str` (an optional
//! leading `+`, then one or more ASCII digits) and the shortest decimal
//! rendering of an integer.
use vstd::prelude::*;

verus! {

/// The byte `0` in ASCII.
pub const ZERO_BYTE: u8 = 48;

/// The byte `+` in ASCII.
pub const PLUS_BYTE: u8 = 43;

pub open spec fn is_digit(b: u8) -> bool {
    ZERO_BYTE <= b <= ZERO_BYTE + 9
}

pub open spec fn all_digits(s: Seq<u8>) -> bool {
    forall|i: int| 0 <= i < s.len() ==> #[trigger] is_digit(s[i])
}

/// The number that a string of ASCII digits denotes (most significant first).
pub open spec fn digits_value(s: Seq<u8>) -> nat
    decreases s.len(),
{
    if s.len() == 0 {
        0
    } else {
        digits_value(s.drop_last()) * 10 + (s.last() - ZERO_BYTE) as nat
    }
}

/// The digits of an unsigned number once an optional leading `+` is removed.
pub open spec fn unsigned_digits(s: Seq<u8>) -> Seq<u8> {
    if s.len() > 0 && s[0] == PLUS_BYTE {
        s.drop_first()
    } else {
        s
    }
}

/// What `u64::from_str` accepts: an optional `+`, then at least one digit,
/// denoting a number no larger than `u64::MAX`.
pub open spec fn parse_u64_spec(s: Seq<u8>) -> Option<u64> {
    let d = unsigned_digits(s);
    if d.len() > 0 && all_digits(d) && digits_value(d) <= u64::MAX {
        Some(digits_value(d) as u64)
    } else {
        None
    }
}

/// The shortest decimal rendering of `n` (no sign, no leading zeros).
pub open spec fn decimal(n: nat) -> Seq<u8>
    decreases n,
{
    if n < 10 {
        seq![(ZERO_BYTE + n) as u8]
    } else {
        decimal(n / 10).push((ZERO_BYTE + n % 10) as u8)
    }
}

/// A prefix of a digit string never denotes more than the whole string.
pub proof fn lemma_digits_value_prefix(s: Seq<u8>, k: int)
    requires
        all_digits(s),
        0 <= k <= s.len(),
    ensures
        digits_value(s.take(k)) <= digits_value(s),
    decreases s.len() - k,
{
    if k < s.len() {
        lemma_digits_value_prefix(s, k + 1);
        assert(s.take(k + 1).drop_last() =~= s.take(k));
        assert(is_digit(s[k]));
    } else {
        assert(s.take(k) =~= s);
    }
}

/// The rendering of `n` is a digit string, starts with a digit, and denotes `n`.
pub proof fn lemma_decimal_digits(n: nat)
    ensures
        decimal(n).len() > 0,
        all_digits(decimal(n)),
        is_digit(decimal(n)[0]),
        digits_value(decimal(n)) == n,
    decreases n,
{
    if n >= 10 {
        lemma_decimal_digits(n / 10);
        let d = decimal(n / 10);
        let e = d.push((ZERO_BYTE + n % 10) as u8);
        assert(e.drop_last() =~= d);
        assert(e.last() == (ZERO_BYTE + n % 10) as u8);
        assert((ZERO_BYTE + n % 10) < 256);
        assert(digits_value(e) == digits_value(d) * 10 + (e.last() - ZERO_BYTE) as nat);
        assert((n / 10) * 10 + n % 10 == n);
        assert(digits_value(e) == n);
        assert(e == decimal(n));
        assert forall|i: int| 0 <= i < e.len() implies #[trigger] is_digit(e[i]) by {
            if i < d.len() {
                assert(e[i] == d[i]);
            }
        }
    } else {
        let d = decimal(n);
        assert(d.drop_last() =~= Seq::<u8>::empty());
        assert(digits_value(d.drop_last()) == 0);
        assert(d.last() == (ZERO_BYTE + n) as u8);
        assert(d.last() - ZERO_BYTE == n);
    }
}

/// Reading back a rendered number gives the number: the decimal rendering
/// and `u64::from_str` agree on every `u64`.
pub proof fn lemma_parse_decimal_roundtrip(n: u64)
    ensures
        parse_u64_spec(decimal(n as nat)) == Some(n),
{
    lemma_decimal_digits(n as nat);
    assert(decimal(n as nat)[0] != PLUS_BYTE);
    assert(unsigned_digits(decimal(n as nat)) == decimal(n as nat));
}

/// Parses the bytes of a `u64` written as `u64::from_str` accepts it.
pub fn parse_u64(s: &[u8]) -> (r: Option<u64>)
    ensures
        r == parse_u64_spec(s@),
{
    let mut start: usize = 0;
    if s.len() > 0 && s[0] == PLUS_BYTE {
        start = 1;
    }
    let ghost d = unsigned_digits(s@);
    assert(d =~= s@.subrange(start as int, s@.len() as int));
    if start == s.len() {
        return None;
    }
    let mut value: u64 = 0;
    let mut i: usize = start;
    while i < s.len()
        invariant
            start <= i <= s.len(),
            start < s.len(),
            d == s@.subrange(start as int, s@.len() as int),
            d == unsigned_digits(s@),
            all_digits(d.take(i - start)),
            value as nat == digits_value(d.take(i - start)),
        decreases s.len() - i,
    {
        let b = s[i];
        let ghost k = i - start;
        assert(d[k] == b);
        assert(d.take(k + 1).drop_last() =~= d.take(k));
        if b < ZERO_BYTE || b > ZERO_BYTE + 9 {
            assert(!is_digit(d[k]));
            assert(!all_digits(d));
            return None;
        }
        let next = match value.checked_mul(10) {
            Some(v) => v.checked_add((b - ZERO_BYTE) as u64),
            None => None,
        };
        match next {
            Some(v) => {
                value = v;
            },
            None => {
                proof {
                    assert(digits_value(d.take(k + 1)) > u64::MAX);
                    assert forall|j: int| 0 <= j < d.take(k + 1).len() implies #[trigger] is_digit(
                        d.take(k + 1)[j],
                    ) by {
                        if j < k {
                            assert(d.take(k + 1)[j] == d.take(k)[j]);
                        }
                    }
                    if all_digits(d) {
                        lemma_digits_value_prefix(d, k + 1);
                    }
                }
                return None;
            },
        }
        i = i + 1;
        proof {
            assert forall|j: int| 0 <= j < d.take(k + 1).len() implies #[trigger] is_digit(
                d.take(k + 1)[j],
            ) by {
                if j < k {
                    assert(d.take(k + 1)[j] == d.take(k)[j]);
                }
            }
        }
    }
    assert(d.take(s.len() - start) =~= d);
    Some(value)
}

/// Renders `n` in decimal, as `n.to_string()` does.
pub fn decimal_bytes(n: u64) -> (r: Vec<u8>)
    ensures
        r@ == decimal(n as nat),
    decreases n,
{
    if n < 10 {
        let mut v: Vec<u8> = Vec::new();
        v.push(ZERO_BYTE + (n as u8));
        v
    } else {
        let mut v = decimal_bytes(n / 10);
        v.push(ZERO_BYTE + ((n % 10) as u8));
        v
    }
}

} // verus!
