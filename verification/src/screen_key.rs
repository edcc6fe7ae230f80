//! Names of the screens in a stored project: screen `n` is stored under the
//! key `screen_<n>`, with `n` in decimal notation without leading zeros.

use vstd::prelude::*;
use crate::snippets::{decimal, digit_char, push_decimal_u64};

verus! {

/// Whether `c` is one of the digits `0`..=`9`.
pub open spec fn is_digit(c: char) -> bool {
    48 <= c as u32 && c as u32 <= 57
}

/// The value of a digit character.
pub open spec fn digit_value(c: char) -> nat {
    (c as u32 - 48) as nat
}

/// The value of a string of digits read in decimal.
pub open spec fn digits_value(s: Seq<char>) -> nat
    decreases s.len(),
{
    if s.len() == 0 {
        0
    } else {
        digits_value(s.drop_last()) * 10 + digit_value(s.last())
    }
}

/// The key under which screen `n` is stored.
pub open spec fn screen_key_text(n: u64) -> Seq<char> {
    "screen_"@ + decimal(n as nat)
}

proof fn lemma_digit_char(d: nat)
    requires
        d < 10,
    ensures
        is_digit(digit_char(d)),
        digit_value(digit_char(d)) == d,
        digit_char(d) == '0' <==> d == 0,
{
}

proof fn lemma_digit_round_trip(c: char)
    requires
        is_digit(c),
    ensures
        digit_value(c) < 10,
        digit_char(digit_value(c)) == c,
{
}

/// Decimal notation is a non-empty string of digits without a leading zero
/// (but for 0 itself), and reads back as the number.
proof fn lemma_decimal_shape(n: nat)
    ensures
        decimal(n).len() >= 1,
        forall|i: int| 0 <= i < decimal(n).len() ==> is_digit(#[trigger] decimal(n)[i]),
        digits_value(decimal(n)) == n,
        decimal(n)[0] == '0' ==> n == 0,
    decreases n,
{
    if n < 10 {
        lemma_digit_char(n);
        assert(decimal(n).drop_last() =~= Seq::<char>::empty());
        assert(digits_value(Seq::<char>::empty()) == 0);
    } else {
        let q = n / 10;
        let d = n % 10;
        lemma_decimal_shape(q);
        lemma_digit_char(d);
        let s = decimal(n);
        assert(s == decimal(q) + seq![digit_char(d)]);
        assert(s.drop_last() =~= decimal(q));
        assert(s.last() == digit_char(d));
        assert(q * 10 + d == n);
        assert forall|i: int| 0 <= i < s.len() implies is_digit(#[trigger] s[i]) by {
            if i < decimal(q).len() {
                assert(s[i] == decimal(q)[i]);
            }
        }
        assert(s[0] == decimal(q)[0]);
    }
}

/// A non-empty string of digits without a leading zero (but for "0") is
/// the decimal notation of its value.
proof fn lemma_canonical_digits(s: Seq<char>)
    requires
        s.len() >= 1,
        forall|i: int| 0 <= i < s.len() ==> is_digit(#[trigger] s[i]),
        s.len() > 1 ==> s[0] != '0',
    ensures
        decimal(digits_value(s)) == s,
    decreases s.len(),
{
    let last = s.last();
    assert(is_digit(s[s.len() - 1]));
    lemma_digit_round_trip(last);
    if s.len() == 1 {
        assert(s.drop_last() =~= Seq::<char>::empty());
        assert(digits_value(Seq::<char>::empty()) == 0);
        assert(digits_value(s) == digit_value(last));
        assert(decimal(digits_value(s)) =~= s);
    } else {
        let p = s.drop_last();
        assert forall|i: int| 0 <= i < p.len() implies is_digit(#[trigger] p[i]) by {
            assert(p[i] == s[i]);
        }
        assert(p[0] == s[0]);
        lemma_canonical_digits(p);
        let vp = digits_value(p);
        let d = digit_value(last);
        if vp == 0 {
            assert(decimal(0) =~= seq!['0']);
            assert(p[0] == '0');
        }
        let v = digits_value(s);
        assert(v == vp * 10 + d);
        assert(v >= 10);
        assert(v / 10 == vp && v % 10 == d) by (nonlinear_arith)
            requires
                v == vp * 10 + d,
                d < 10,
        ;
        assert(decimal(v) == decimal(vp) + seq![digit_char(d)]);
        assert(decimal(v) =~= s);
    }
}

/// The value of a prefix of a digit string is at most that of the string.
proof fn lemma_prefix_value(s: Seq<char>, j: int)
    requires
        0 <= j <= s.len(),
    ensures
        digits_value(s.subrange(0, j)) <= digits_value(s),
    decreases s.len() - j,
{
    if j < s.len() {
        lemma_prefix_value(s, j + 1);
        let t = s.subrange(0, j + 1);
        assert(t.drop_last() =~= s.subrange(0, j));
    } else {
        assert(s.subrange(0, j) =~= s);
    }
}

/// Different screens are stored under different keys, so a key read back
/// with `screen_index` names the very screen `screen_key` wrote it for.
pub proof fn lemma_screen_key_text_injective(n: u64, m: u64)
    requires
        screen_key_text(n) == screen_key_text(m),
    ensures
        n == m,
{
    reveal_strlit("screen_");
    let a = screen_key_text(n);
    assert(a.subrange(7, a.len() as int) =~= decimal(n as nat));
    assert(screen_key_text(m).subrange(7, a.len() as int) =~= decimal(m as nat));
    lemma_decimal_shape(n as nat);
    lemma_decimal_shape(m as nat);
}

/// The key of screen `index`: `screen_` and the index in decimal.
pub fn screen_key(index: u64) -> (r: String)
    ensures
        r@ == screen_key_text(index),
{
    let mut r = String::from_str("screen_");
    push_decimal_u64(&mut r, index);
    r
}

/// Reads a stored screen key: the index `n` whose key is exactly `key`, or
/// `None` when `key` is no screen's key (another prefix, no digits, a
/// character that is not a digit, a leading zero, or an index past `u64`).
pub fn screen_index(key: &str) -> (r: Option<u64>)
    ensures
        match r {
            Some(n) => key@ == screen_key_text(n),
            None => forall|n: u64| key@ != #[trigger] screen_key_text(n),
        },
{
    proof {
        reveal_strlit("screen_");
    }
    let len = key.unicode_len();
    let prefix = "screen_";
    assert(prefix@.len() == 7);
    if len < 8 {
        proof {
            assert forall|n: u64| key@ != #[trigger] screen_key_text(n) by {
                lemma_decimal_shape(n as nat);
            }
        }
        return None;
    }
    let mut i: usize = 0;
    while i < 7
        invariant
            len == key@.len(),
            len >= 8,
            prefix@ == "screen_"@,
            prefix@.len() == 7,
            i <= 7,
            forall|j: int| 0 <= j < i ==> key@[j] == prefix@[j],
        decreases 7 - i,
    {
        if key.get_char(i) != prefix.get_char(i) {
            proof {
                reveal_strlit("screen_");
                assert forall|n: u64| key@ != #[trigger] screen_key_text(n) by {
                    assert(screen_key_text(n)[i as int] == "screen_"@[i as int]);
                }
            }
            return None;
        }
        i += 1;
    }
    assert(key@.subrange(0, 7) =~= "screen_"@);
    let ghost digits = key@.subrange(7, len as int);
    assert(key@ =~= "screen_"@ + digits);
    // From here on, `key` is the key of screen `n` exactly when `digits` is
    // the decimal notation of `n`.
    assert forall|n: u64| (key@ == #[trigger] screen_key_text(n)) == (digits == decimal(n as nat)) by {
        if key@ == screen_key_text(n) {
            assert(digits =~= screen_key_text(n).subrange(7, len as int));
            assert(screen_key_text(n).subrange(7, len as int) =~= decimal(n as nat));
        }
    }
    if len > 8 && key.get_char(7) == '0' {
        proof {
            assert forall|n: u64| key@ != #[trigger] screen_key_text(n) by {
                lemma_decimal_shape(n as nat);
                if digits == decimal(n as nat) {
                    assert(digits[0] == key@[7]);
                }
            }
        }
        return None;
    }
    let mut v: u64 = 0;
    let mut k: usize = 7;
    while k < len
        invariant
            len == key@.len(),
            len >= 8,
            7 <= k <= len,
            digits == key@.subrange(7, len as int),
            v as nat == digits_value(digits.subrange(0, k - 7)),
            forall|j: int| 0 <= j < k - 7 ==> is_digit(#[trigger] digits[j]),
            forall|n: u64| (key@ == #[trigger] screen_key_text(n)) == (digits == decimal(n as nat)),
        decreases len - k,
    {
        let c = key.get_char(k);
        assert(c == digits[k - 7]);
        if !('0' <= c && c <= '9') {
            proof {
                assert forall|n: u64| key@ != #[trigger] screen_key_text(n) by {
                    lemma_decimal_shape(n as nat);
                    if digits == decimal(n as nat) {
                        assert(is_digit(decimal(n as nat)[k - 7]));
                    }
                }
            }
            return None;
        }
        let d: u64 = (c as u32 - 48) as u64;
        let ghost t = digits.subrange(0, k + 1 - 7);
        assert(t.drop_last() =~= digits.subrange(0, k - 7));
        assert(t.last() == c);
        assert(digits_value(t) == v * 10 + d);
        if v > 1844674407370955161 || (v == 1844674407370955161 && d > 5) {
            proof {
                assert(v * 10 + d > u64::MAX) by (nonlinear_arith)
                    requires
                        v > 1844674407370955161 || (v == 1844674407370955161 && d > 5),
                ;
                assert forall|n: u64| key@ != #[trigger] screen_key_text(n) by {
                    if digits == decimal(n as nat) {
                        lemma_decimal_shape(n as nat);
                        lemma_prefix_value(digits, k + 1 - 7);
                    }
                }
            }
            return None;
        }
        assert(v * 10 + d <= u64::MAX) by (nonlinear_arith)
            requires
                !(v > 1844674407370955161 || (v == 1844674407370955161 && d > 5)),
                d <= 9,
        ;
        v = v * 10 + d;
        k += 1;
    }
    proof {
        assert(digits.subrange(0, len - 7) =~= digits);
        if digits.len() > 1 {
            assert(digits[0] == key@[7]);
        }
        lemma_canonical_digits(digits);
    }
    Some(v)
}

} // verus!
