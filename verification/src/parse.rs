//! A verified decimal reader for recipient ids: an optional sign followed by
//! ASCII digits, accepted exactly when the value fits in an `i32`.

use vstd::prelude::*;

verus! {

/// An ASCII decimal digit.
pub open spec fn is_ascii_digit(c: char) -> bool {
    '0' <= c && c <= '9'
}

/// The value of one digit.
pub open spec fn digit_val(c: char) -> int {
    c as int - '0' as int
}

/// Every character is a digit.
pub open spec fn all_digits(s: Seq<char>) -> bool {
    forall|i: int| 0 <= i < s.len() ==> is_ascii_digit(#[trigger] s[i])
}

/// The value of a digit string, most significant digit first.
pub open spec fn digits_val(s: Seq<char>) -> int
    decreases s.len(),
{
    if s.len() == 0 {
        0
    } else {
        digits_val(s.drop_last()) * 10 + digit_val(s.last())
    }
}

/// The digits of a numeral: everything after an optional leading sign.
pub open spec fn num_body(s: Seq<char>) -> Seq<char> {
    if s.len() > 0 && (s[0] == '-' || s[0] == '+') {
        s.subrange(1, s.len() as int)
    } else {
        s
    }
}

/// The sign of a numeral.
pub open spec fn num_sign(s: Seq<char>) -> int {
    if s.len() > 0 && s[0] == '-' {
        -1
    } else {
        1
    }
}

/// A well-formed `i32` numeral: an optional sign, at least one digit, nothing
/// but digits, and a value in range.
pub open spec fn is_i32_numeral(s: Seq<char>) -> bool {
    &&& num_body(s).len() > 0
    &&& all_digits(num_body(s))
    &&& i32::MIN <= num_sign(s) * digits_val(num_body(s)) <= i32::MAX
}

/// The value of a well-formed numeral.
pub open spec fn i32_numeral_val(s: Seq<char>) -> int {
    num_sign(s) * digits_val(num_body(s))
}

proof fn lemma_digits_val_nonneg(s: Seq<char>)
    requires
        all_digits(s),
    ensures
        digits_val(s) >= 0,
    decreases s.len(),
{
    if s.len() > 0 {
        assert(all_digits(s.drop_last()));
        lemma_digits_val_nonneg(s.drop_last());
    }
}

proof fn lemma_digits_val_prefix(t: Seq<char>, m: int)
    requires
        all_digits(t),
        0 <= m <= t.len(),
    ensures
        digits_val(t) >= digits_val(t.subrange(0, m)),
    decreases t.len() - m,
{
    if m == t.len() {
        assert(t.subrange(0, m) =~= t);
    } else {
        assert(t.subrange(0, m) =~= t.drop_last().subrange(0, m));
        assert(all_digits(t.drop_last()));
        lemma_digits_val_prefix(t.drop_last(), m);
        lemma_digits_val_nonneg(t.drop_last());
    }
}

/// Reads a decimal `i32`: `Some` exactly on well-formed numerals, carrying
/// the written value; `None` on anything malformed or out of range.
pub fn parse_i32(s: &str) -> (r: Option<i32>)
    ensures
        r is Some <==> is_i32_numeral(s@),
        r matches Some(v) ==> v as int == i32_numeral_val(s@),
{
    let n = s.unicode_len();
    if n == 0 {
        return None;
    }
    let first = s.get_char(0);
    let negative = first == '-';
    let start: usize = if first == '-' || first == '+' {
        1
    } else {
        0
    };
    if start == n {
        return None;
    }
    let ghost body = num_body(s@);
    proof {
        assert(body =~= s@.subrange(start as int, n as int));
    }
    let mut acc: i64 = 0;
    let mut k = start;
    while k < n
        invariant
            n == s@.len(),
            start <= k <= n,
            start < n,
            body == s@.subrange(start as int, n as int),
            body == num_body(s@),
            all_digits(s@.subrange(start as int, k as int)),
            acc == digits_val(s@.subrange(start as int, k as int)),
            0 <= acc <= 0x8000_0000,
        decreases n - k,
    {
        let c = s.get_char(k);
        if c < '0' || c > '9' {
            proof {
                assert(body[k - start] == s@[k as int]);
                assert(!all_digits(body));
            }
            return None;
        }
        let d: i64 = (c as u32) as i64 - ('0' as u32) as i64;
        acc = acc * 10 + d;
        proof {
            let prefix = s@.subrange(start as int, k as int);
            let prefix1 = s@.subrange(start as int, k as int + 1);
            assert(prefix1.drop_last() =~= prefix);
            assert(prefix1.last() == s@[k as int]);
            assert(acc == digits_val(prefix1));
        }
        k += 1;
        if acc > 0x8000_0000 {
            proof {
                let prefix = s@.subrange(start as int, k as int);
                assert(prefix =~= body.subrange(0, k - start));
                if is_i32_numeral(s@) {
                    lemma_digits_val_prefix(body, k - start);
                }
            }
            return None;
        }
    }
    proof {
        assert(s@.subrange(start as int, n as int) == body);
        assert(acc == digits_val(body));
        assert(all_digits(body));
        lemma_digits_val_nonneg(body);
    }
    if negative {
        Some((-acc) as i32)
    } else {
        if acc > 0x7fff_ffff {
            return None;
        }
        Some(acc as i32)
    }
}

} // verus!
