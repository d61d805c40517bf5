use vstd::prelude::*;
use vstd::string::StrSliceExecFns;

verus! {

pub open spec fn is_digit(c: char) -> bool {
    '0' <= c <= '9'
}

pub open spec fn all_digits(s: Seq<char>) -> bool {
    s.len() > 0 && forall|i: int| 0 <= i < s.len() ==> #[trigger] is_digit(s[i])
}

/// The number a non-empty run of decimal digits denotes.
pub open spec fn digits_value(s: Seq<char>) -> int
    decreases s.len(),
{
    if s.len() == 0 {
        0
    } else {
        digits_value(s.drop_last()) * 10 + (s.last() as int - '0' as int)
    }
}

/// The integer a decimal numeral denotes: an optional `+` or `-`, then one or
/// more digits, and nothing else.
pub open spec fn signed_value(s: Seq<char>) -> Option<int> {
    if s.len() > 0 && (s[0] == '-' || s[0] == '+') {
        if all_digits(s.drop_first()) {
            Some(
                if s[0] == '-' {
                    -digits_value(s.drop_first())
                } else {
                    digits_value(s.drop_first())
                },
            )
        } else {
            None
        }
    } else if all_digits(s) {
        Some(digits_value(s))
    } else {
        None
    }
}

/// The value of a numeral without a minus sign.
pub open spec fn unsigned_value(s: Seq<char>) -> Option<int> {
    if s.len() > 0 && s[0] == '-' {
        None
    } else {
        signed_value(s)
    }
}

pub open spec fn i32_of(s: Seq<char>) -> Option<i32> {
    match signed_value(s) {
        Some(v) => if i32::MIN <= v <= i32::MAX {
            Some(v as i32)
        } else {
            None
        },
        None => None,
    }
}

pub open spec fn u32_of(s: Seq<char>) -> Option<u32> {
    match unsigned_value(s) {
        Some(v) => if v <= u32::MAX {
            Some(v as u32)
        } else {
            None
        },
        None => None,
    }
}

pub proof fn lemma_digits_value_nonneg(s: Seq<char>)
    requires
        forall|i: int| 0 <= i < s.len() ==> #[trigger] is_digit(s[i]),
    ensures
        digits_value(s) >= 0,
    decreases s.len(),
{
    if s.len() > 0 {
        assert(is_digit(s[s.len() - 1]));
        lemma_digits_value_nonneg(s.drop_last());
    }
}

/// A numeral without a minus sign denotes a value of at least 0.
pub proof fn lemma_unsigned_nonneg(s: Seq<char>)
    ensures
        unsigned_value(s) matches Some(v) ==> v >= 0,
{
    if s.len() > 0 && s[0] == '+' {
        if all_digits(s.drop_first()) {
            lemma_digits_value_nonneg(s.drop_first());
        }
    } else if all_digits(s) {
        lemma_digits_value_nonneg(s);
    }
}

/// Relies on `i32::from_str`: an optional sign, then decimal digits, within range.
#[verifier::external_body]
pub(crate) fn parse_i32(s: &str) -> (r: Option<i32>)
    ensures
        r == i32_of(s@),
{
    s.parse::<i32>().ok()
}

/// Relies on `u32::from_str`: an optional `+`, then decimal digits, within range.
#[verifier::external_body]
pub(crate) fn parse_u32(s: &str) -> (r: Option<u32>)
    ensures
        r == u32_of(s@),
{
    s.parse::<u32>().ok()
}

/// Whether `s` is an optional `+` followed by one or more decimal digits.
pub fn is_unsigned_numeral(s: &str) -> (r: bool)
    ensures
        r <==> unsigned_value(s@) is Some,
{
    let n = s.unicode_len();
    if n == 0 {
        return false;
    }
    let first = s.get_char(0);
    let start: usize = if first == '+' {
        1
    } else {
        0
    };
    if start == n {
        return false;
    }
    let mut i = start;
    while i < n
        invariant
            n == s@.len(),
            start <= i <= n,
            start == (if s@[0] == '+' { 1usize } else { 0usize }),
            forall|j: int| start <= j < i ==> #[trigger] is_digit(s@[j]),
        decreases n - i,
    {
        let c = s.get_char(i);
        if !('0' <= c && c <= '9') {
            proof {
                assert(!is_digit(s@[i as int]));
                if start == 1 {
                    assert(s@.drop_first()[i - 1] == c);
                }
            }
            return false;
        }
        i += 1;
    }
    proof {
        if start == 1 {
            assert forall|j: int| 0 <= j < s@.drop_first().len() implies #[trigger] is_digit(
                s@.drop_first()[j],
            ) by {
                assert(is_digit(s@[j + 1]));
            }
        } else {
            assert(is_digit(s@[0]));
        }
    }
    true
}

/// Whether `s` reads exactly `word`.
pub fn text_is(s: &str, word: &str) -> (r: bool)
    ensures
        r == (s@ == word@),
{
    let a = s.as_bytes();
    let b = word.as_bytes();
    proof {
        vstd::utf8::encode_utf8_decode_utf8(s@);
        vstd::utf8::encode_utf8_decode_utf8(word@);
        assert(s@ == word@ ==> a@ == b@);
    }
    if a.len() != b.len() {
        return false;
    }
    let mut i: usize = 0;
    while i < a.len()
        invariant
            a@.len() == b@.len(),
            s@ == word@ ==> a@ == b@,
            i <= a@.len(),
            forall|j: int| 0 <= j < i ==> a@[j] == b@[j],
        decreases a@.len() - i,
    {
        if a[i] != b[i] {
            assert(a@ != b@);
            return false;
        }
        i += 1;
    }
    assert(a@ =~= b@);
    true
}

/// Sub-units (4096 per block) below the decimal point: the fraction
/// `0.ds` times 4096, rounded down.
pub open spec fn frac_units(ds: Seq<char>) -> int
    decreases ds.len(),
{
    if ds.len() == 0 {
        0
    } else {
        ((ds[0] as int - '0' as int) * 4096 + frac_units(ds.drop_first())) / 10
    }
}

/// Largest whole part, in blocks, that a coordinate may have: its sub-units fit in `i64`.
pub const MAX_COORDINATE_BLOCKS: i64 = 2251799813685247;

/// `m` is `k` digits, then, if `k < m.len()`, a `.` at `k` followed by
/// digits only; at least one digit stands before or after the `.`.
pub open spec fn split_ok(m: Seq<char>, k: int) -> bool {
    &&& 0 <= k <= m.len()
    &&& forall|j: int| 0 <= j < k ==> #[trigger] is_digit(m[j])
    &&& k < m.len() ==> m[k] == '.' && forall|j: int| k < j < m.len() ==> #[trigger] is_digit(m[j])
    &&& k > 0 || k + 1 < m.len()
}

/// Number of leading characters that are a sign.
pub open spec fn sign_len(s: Seq<char>) -> int {
    if s.len() > 0 && (s[0] == '-' || s[0] == '+') {
        1
    } else {
        0
    }
}

/// A decimal coordinate in sub-units, rounded toward zero: an optional sign,
/// whole blocks (at most `MAX_COORDINATE_BLOCKS`), then optionally `.` and
/// decimals; the whole part may be left out when decimals follow.
pub open spec fn coordinate_units(s: Seq<char>) -> Option<int> {
    let m = s.skip(sign_len(s));
    if exists|k: int| split_ok(m, k) {
        let k = choose|k: int| split_ok(m, k);
        let whole = digits_value(m.take(k));
        let v = whole * 4096 + if k < m.len() { frac_units(m.skip(k + 1)) } else { 0 };
        if whole <= MAX_COORDINATE_BLOCKS {
            Some(if sign_len(s) == 1 && s[0] == '-' { -v } else { v })
        } else {
            None
        }
    } else {
        None
    }
}

proof fn lemma_split_unique(m: Seq<char>, a: int, b: int)
    requires
        split_ok(m, a),
        split_ok(m, b),
    ensures
        a == b,
{
    if a < b {
        assert(is_digit(m[a]));
    } else if b < a {
        assert(is_digit(m[b]));
    }
}

proof fn lemma_prefix_value_le(s: Seq<char>, i: int)
    requires
        forall|j: int| 0 <= j < s.len() ==> #[trigger] is_digit(s[j]),
        0 <= i <= s.len(),
    ensures
        digits_value(s.take(i)) <= digits_value(s),
    decreases s.len() - i,
{
    if i == s.len() {
        assert(s.take(i) =~= s);
    } else {
        lemma_prefix_value_le(s, i + 1);
        assert(s.take(i + 1).drop_last() =~= s.take(i));
        assert forall|j: int| 0 <= j < i implies #[trigger] is_digit(s.take(i)[j]) by {
            assert(is_digit(s[j]));
        }
        lemma_digits_value_nonneg(s.take(i));
        assert(is_digit(s[i]));
    }
}

/// Reads a decimal coordinate as sub-units; see `coordinate_units`.
pub fn parse_coordinate(s: &str) -> (r: Option<i64>)
    ensures
        match coordinate_units(s@) {
            Some(v) => r == Some(v as i64),
            None => r is None,
        },
{
    let n = s.unicode_len();
    let start: usize = if n > 0 && (s.get_char(0) == '-' || s.get_char(0) == '+') {
        1
    } else {
        0
    };
    let ghost m = s@.skip(start as int);
    let mut whole: i64 = 0;
    let mut i: usize = start;
    let mut dot = false;
    while i < n && !dot
        invariant
            n == s@.len(),
            start <= i <= n,
            m == s@.skip(start as int),
            start == sign_len(s@),
            0 <= whole <= MAX_COORDINATE_BLOCKS,
            whole == digits_value(m.take(i - start)),
            forall|j: int| 0 <= j < i - start ==> #[trigger] is_digit(m[j]),
            dot ==> i < n && s@[i as int] == '.',
        decreases n - i + (if dot { 0int } else { 1int }),
    {
        let c = s.get_char(i);
        if c == '.' {
            dot = true;
        } else if '0' <= c && c <= '9' {
            proof {
                assert(m.take(i - start + 1).drop_last() =~= m.take(i - start));
                assert(m[i - start] == c);
            }
            whole = whole * 10 + (c as u32 - '0' as u32) as i64;
            if whole > MAX_COORDINATE_BLOCKS {
                proof {
                    assert(is_digit(m[i - start]));
                    if exists|k: int| split_ok(m, k) {
                        let k = choose|k: int| split_ok(m, k);
                        assert(k > i - start) by {
                            if k <= i - start {
                                if k < m.len() {
                                    assert(is_digit(m[k]));
                                }
                            }
                        }
                        let t = m.take(k);
                        assert forall|j: int| 0 <= j < t.len() implies #[trigger] is_digit(t[j]) by {
                            assert(is_digit(m[j]));
                        }
                        lemma_prefix_value_le(t, i - start + 1);
                        assert(t.take(i - start + 1) =~= m.take(i - start + 1));
                    }
                }
                return None;
            }
            i += 1;
        } else {
            proof {
                if exists|k: int| split_ok(m, k) {
                    let k = choose|k: int| split_ok(m, k);
                    assert(m[i - start] == c);
                    if i - start < k {
                        assert(is_digit(m[i - start]));
                    } else if i - start > k {
                        assert(is_digit(m[i - start]));
                    }
                }
            }
            return None;
        }
    }
    let k = i - start;
    if k == 0 && (!dot || i + 1 == n) {
        proof {
            if exists|q: int| split_ok(m, q) {
                let q = choose|q: int| split_ok(m, q);
                assert(m.len() == n - start);
                if q > 0 {
                    assert(is_digit(m[0]));
                }
            }
        }
        return None;
    }
    let mut frac: i64 = 0;
    let mut j: usize = n;
    let lo: usize = if dot {
        i + 1
    } else {
        n
    };
    while j > lo
        invariant
            n == s@.len(),
            lo <= j <= n,
            dot ==> lo == i + 1,
            !dot ==> lo == n,
            start <= i <= n,
            k == i - start,
            start == sign_len(s@),
            forall|p: int| 0 <= p < k ==> #[trigger] is_digit(m[p]),
            dot ==> i < n && s@[i as int] == '.',
            m == s@.skip(start as int),
            0 <= frac < 4096,
            frac == frac_units(s@.subrange(j as int, n as int)),
            forall|q: int| j <= q < n ==> #[trigger] is_digit(s@[q]),
        decreases j - lo,
    {
        j -= 1;
        let c = s.get_char(j);
        if !('0' <= c && c <= '9') {
            proof {
                if exists|q: int| split_ok(m, q) {
                    let q = choose|q: int| split_ok(m, q);
                    assert(m[j - start] == c);
                    assert(m[k as int] == '.');
                    if q < k {
                        assert(is_digit(m[q]));
                    } else if q < j - start {
                        assert(is_digit(m[j - start]));
                    } else {
                        assert(is_digit(m[k as int]));
                    }
                }
            }
            return None;
        }
        proof {
            assert(s@.subrange(j as int, n as int).drop_first() =~= s@.subrange(j as int + 1, n as int));
        }
        frac = ((c as u32 - '0' as u32) as i64 * 4096 + frac) / 10;
    }
    proof {
        assert(split_ok(m, k as int)) by {
            if dot {
                assert(m[k as int] == '.');
                assert forall|q: int| k < q < m.len() implies #[trigger] is_digit(m[q]) by {
                    assert(is_digit(s@[q + start]));
                }
            }
        }
        let kk = choose|q: int| split_ok(m, q);
        lemma_split_unique(m, k as int, kk);
        if dot {
            assert(m.skip(k as int + 1) =~= s@.subrange(lo as int, n as int));
        }
        assert(m.take(k as int) =~= m.take(i - start));
    }
    let v = whole * 4096 + frac;
    if start == 1 && s.get_char(0) == '-' {
        Some(-v)
    } else {
        Some(v)
    }
}

} // verus!
