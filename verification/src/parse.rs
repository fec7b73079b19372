//! Parsing of the viewer-count strings the chat transport reports.
//!
//! Upstream writes large counts with the CJK ten-thousand suffix, as in
//! a count of twelve and a half thousand written as `"1.25"` followed by
//! the suffix.  Such a string is read as an exact decimal, multiplied by
//! ten thousand and truncated; a plain string of digits is read as an
//! integer.  Anything else yields nothing.

use vstd::prelude::*;

use vstd::string::StrSliceExecFns;

verus! {

/// The CJK ten-thousand suffix character.
pub const WAN: char = '\u{4e07}';

/// A decimal digit.
pub open spec fn is_digit(c: char) -> bool {
    '0' <= c && c <= '9'
}

/// The value of one digit.
pub open spec fn digit_val(c: char) -> int {
    c as int - '0' as int
}

/// Every character is a digit.
pub open spec fn all_digits(s: Seq<char>) -> bool {
    forall|i: int| 0 <= i < s.len() ==> is_digit(#[trigger] s[i])
}

/// The number a string of digits denotes.
pub open spec fn digits_val(s: Seq<char>) -> int
    decreases s.len(),
{
    if s.len() == 0 {
        0
    } else {
        digits_val(s.drop_last()) * 10 + digit_val(s.last())
    }
}

/// Ten to the `n`.
pub open spec fn pow10(n: nat) -> int
    decreases n,
{
    if n == 0 {
        1
    } else {
        10 * pow10((n - 1) as nat)
    }
}

/// The first four fractional digits, read as ten-thousandths.
pub open spec fn frac4_val(s: Seq<char>) -> int {
    if s.len() >= 4 {
        digits_val(s.subrange(0, 4))
    } else {
        digits_val(s) * pow10((4 - s.len()) as nat)
    }
}

/// Clamp a non-negative number into `i32`, as a saturating cast does.
pub open spec fn clamp_i32(v: int) -> i32 {
    if v > i32::MAX {
        i32::MAX
    } else {
        v as i32
    }
}

/// A decimal numeral: digits with at most one point, at least one digit.
pub open spec fn valid_decimal(s: Seq<char>) -> bool {
    match spec_dot_pos(s) {
        Some(p) => all_digits(s.subrange(0, p)) && all_digits(s.subrange(p + 1, s.len() as int))
            && s.len() > 1,
        None => all_digits(s) && s.len() > 0,
    }
}

/// The position of the first decimal point, if any.
pub open spec fn spec_dot_pos(s: Seq<char>) -> Option<int> {
    if exists|i: int| 0 <= i < s.len() && s[i] == '.' {
        Some(spec_first_dot(s))
    } else {
        None
    }
}

/// The least index holding a point.
pub open spec fn spec_first_dot(s: Seq<char>) -> int {
    choose|i: int|
        0 <= i < s.len() && s[i] == '.' && forall|j: int| 0 <= j < i ==> s[j] != '.'
}

/// The exact decimal value of a numeral, in ten-thousandths.
pub open spec fn decimal_times_1e4(s: Seq<char>) -> int {
    match spec_dot_pos(s) {
        Some(p) => digits_val(s.subrange(0, p)) * 10000 + frac4_val(
            s.subrange(p + 1, s.len() as int),
        ),
        None => digits_val(s) * 10000,
    }
}

/// Not the ten-thousand suffix.
pub open spec fn not_wan(c: char) -> bool {
    c != WAN
}

/// What a reported viewer-count string denotes.
pub open spec fn spec_parse_watching(s: Seq<char>) -> Option<i32> {
    if s.contains(WAN) {
        let t = s.filter(|c: char| not_wan(c));
        if valid_decimal(t) {
            Some(clamp_i32(decimal_times_1e4(t)))
        } else {
            None
        }
    } else {
        if all_digits(s) && s.len() > 0 && digits_val(s) <= i32::MAX {
            Some(digits_val(s) as i32)
        } else {
            None
        }
    }
}

/// Values beyond this cap all clamp alike; keeping accumulators at the cap
/// avoids overflow while preserving the clamped result.
pub const VAL_CAP: i64 = 3000000000;

/// Reading one more digit, capped.
fn acc_digit(acc: i64, d: u32) -> (r: i64)
    requires
        0 <= acc <= VAL_CAP,
        d < 10,
    ensures
        r == spec_cap(acc * 10 + d),
{
    let next = acc * 10 + (d as i64);
    if next > VAL_CAP {
        VAL_CAP
    } else {
        next
    }
}

/// `v` capped at `VAL_CAP`.
pub open spec fn spec_cap(v: int) -> int {
    if v > VAL_CAP {
        VAL_CAP as int
    } else {
        v
    }
}

/// Appending a digit to a numeral multiplies its value by ten and adds the
/// digit.
proof fn lemma_digits_val_push(s: Seq<char>, c: char)
    ensures
        digits_val(s.push(c)) == digits_val(s) * 10 + digit_val(c),
{
    assert(s.push(c).drop_last() == s);
    assert(s.push(c).last() == c);
}

/// The capped accumulator tracks the capped value of the digits read.
proof fn lemma_cap_step(v: int, acc: int, d: int)
    requires
        acc == spec_cap(v),
        0 <= v,
        0 <= d < 10,
    ensures
        spec_cap(acc * 10 + d) == spec_cap(v * 10 + d),
{
    if v > VAL_CAP {
        assert(acc == VAL_CAP);
        assert(acc * 10 + d > VAL_CAP);
        assert(v * 10 + d > VAL_CAP);
    }
}

/// A numeral's value is never negative.
proof fn lemma_digits_val_nonneg(s: Seq<char>)
    requires
        all_digits(s),
    ensures
        digits_val(s) >= 0,
    decreases s.len(),
{
    if s.len() > 0 {
        assert(all_digits(s.drop_last()));
        lemma_digits_val_nonneg(s.drop_last());
        assert(is_digit(s.last()));
    }
}

/// Read a viewer-count string.
pub fn parse_watching_count(raw: &str) -> (r: Option<i32>)
    ensures
        r == spec_parse_watching(raw@),
{
    let len = raw.unicode_len();
    // one pass: strip the suffix, note whether it occurred, find the first
    // point, and check that everything else is a digit
    let mut stripped: Vec<char> = Vec::new();
    let mut has_wan = false;
    let mut k: usize = 0;
    while k < len
        invariant
            k <= len,
            len == raw@.len(),
            stripped@ == raw@.subrange(0, k as int).filter(|c: char| not_wan(c)),
            has_wan == raw@.subrange(0, k as int).contains(WAN),
        decreases len - k,
    {
        let ghost prefix = raw@.subrange(0, k as int);
        let c = raw.get_char(k);
        proof {
            assert(prefix.push(c) == raw@.subrange(0, k + 1 as int));
            assert(prefix.push(c).drop_last() == prefix);
            assert(prefix.push(c).last() == c);
            reveal(Seq::filter);
            assert forall|w: char|
                prefix.push(c).contains(w) <==> prefix.contains(w) || c == w by {
                if prefix.push(c).contains(w) {
                    let i = choose|i: int|
                        0 <= i < prefix.push(c).len() && prefix.push(c)[i] == w;
                    if i < prefix.len() {
                        assert(prefix[i] == w);
                    }
                }
                if prefix.contains(w) {
                    let i = choose|i: int| 0 <= i < prefix.len() && prefix[i] == w;
                    assert(prefix.push(c)[i] == w);
                }
                if c == w {
                    assert(prefix.push(c)[prefix.len() as int] == w);
                }
            }
        }
        if c == WAN {
            has_wan = true;
        } else {
            stripped.push(c);
        }
        k = k + 1;
    }
    proof {
        assert(raw@.subrange(0, raw@.len() as int) == raw@);
        if !has_wan {
            lemma_filter_id(raw@);
        }
    }
    if has_wan {
        parse_decimal_1e4(&stripped)
    } else {
        parse_plain_int(&stripped)
    }
}

/// Stripping the suffix from a string that never held it changes nothing.
proof fn lemma_filter_id(s: Seq<char>)
    requires
        !s.contains(WAN),
    ensures
        s.filter(|c: char| not_wan(c)) == s,
    decreases s.len(),
{
    reveal(Seq::filter);
    if s.len() == 0 {
        assert(s.filter(|c: char| not_wan(c)) == s);
    } else {
        assert(!s.drop_last().contains(WAN)) by {
            if s.drop_last().contains(WAN) {
                let i = choose|i: int| 0 <= i < s.drop_last().len() && s.drop_last()[i] == WAN;
                assert(s[i] == WAN);
            }
        }
        lemma_filter_id(s.drop_last());
        assert(s.last() != WAN) by {
            if s.last() == WAN {
                assert(s[s.len() - 1] == WAN);
            }
        }
        assert(s.filter(|c: char| not_wan(c)) == s.drop_last().push(s.last()));
        assert(s.drop_last().push(s.last()) == s);
    }
}

/// Read a plain string of digits as an integer, refusing overflow.
fn parse_plain_int(chars: &Vec<char>) -> (r: Option<i32>)
    ensures
        r == (if all_digits(chars@) && chars@.len() > 0 && digits_val(chars@) <= i32::MAX {
            Some(digits_val(chars@) as i32)
        } else {
            None::<i32>
        }),
{
    if chars.len() == 0 {
        return None;
    }
    let mut acc: i64 = 0;
    let mut k: usize = 0;
    while k < chars.len()
        invariant
            k <= chars@.len(),
            all_digits(chars@.subrange(0, k as int)),
            acc == spec_cap(digits_val(chars@.subrange(0, k as int))),
            0 <= acc <= VAL_CAP,
        decreases chars@.len() - k,
    {
        let ghost prefix = chars@.subrange(0, k as int);
        let c = chars[k];
        if c < '0' || c > '9' {
            return None;
        }
        proof {
            lemma_digits_val_push(prefix, c);
            lemma_digits_val_nonneg(prefix);
            lemma_cap_step(digits_val(prefix), acc as int, digit_val(c));
            assert(prefix.push(c) == chars@.subrange(0, k + 1 as int));
        }
        acc = acc_digit(acc, c as u32 - '0' as u32);
        k = k + 1;
    }
    proof {
        assert(chars@.subrange(0, chars@.len() as int) == chars@);
        lemma_digits_val_nonneg(chars@);
    }
    if acc <= i32::MAX as i64 {
        proof {
            assert(digits_val(chars@) <= i32::MAX);
        }
        Some(acc as i32)
    } else {
        proof {
            assert(digits_val(chars@) > i32::MAX);
        }
        None
    }
}

/// Read a decimal numeral as ten-thousandths, clamped into `i32`.
fn parse_decimal_1e4(chars: &Vec<char>) -> (r: Option<i32>)
    ensures
        r == (if valid_decimal(chars@) {
            Some(clamp_i32(decimal_times_1e4(chars@)))
        } else {
            None::<i32>
        }),
{
    // find the first point
    let mut dot: Option<usize> = None;
    let mut k: usize = 0;
    while k < chars.len()
        invariant
            k <= chars@.len(),
            match dot {
                Some(p) => p < k && chars@[p as int] == '.' && (forall|j: int|
                    0 <= j < p ==> chars@[j] != '.'),
                None => forall|j: int| 0 <= j < k ==> chars@[j] != '.',
            },
        decreases chars@.len() - k,
    {
        if dot.is_none() && chars[k] == '.' {
            dot = Some(k);
        }
        k = k + 1;
    }
    proof {
        match dot {
            Some(p) => {
                assert(spec_dot_pos(chars@) matches Some(q) && q == p) by {
                    assert(0 <= p < chars@.len() && chars@[p as int] == '.');
                    assert(exists|i: int| 0 <= i < chars@.len() && chars@[i] == '.');
                    assert((p as int) < chars@.len() && chars@[p as int] == '.' && forall|j: int|
                        0 <= j < p as int ==> chars@[j] != '.');
                    let q = spec_first_dot(chars@);
                    assert(0 <= q < chars@.len() && chars@[q] == '.' && forall|j: int|
                        0 <= j < q ==> chars@[j] != '.');
                    if q < p {
                        assert(chars@[q] != '.');
                    }
                    if p < q {
                        assert(chars@[p as int] != '.');
                    }
                }
            },
            None => {
                assert(spec_dot_pos(chars@) matches None) by {
                    if exists|i: int| 0 <= i < chars@.len() && chars@[i] == '.' {
                        let i = choose|i: int| 0 <= i < chars@.len() && chars@[i] == '.';
                        assert(chars@[i] != '.');
                    }
                }
            },
        }
    }
    match dot {
        Some(p) => {
            if chars.len() < 2 {
                return None;
            }
            let int_part = match digits_value(chars, 0, p) {
                Some(v) => v,
                None => {
                    return None;
                },
            };
            let frac_end = if chars.len() - (p + 1) >= 4 {
                p + 5
            } else {
                chars.len()
            };
            let frac_digits = match digits_value(chars, p + 1, frac_end) {
                Some(v) => v,
                None => {
                    proof {
                        let whole = chars@.subrange(p + 1 as int, chars@.len() as int);
                        let head = chars@.subrange(p + 1 as int, frac_end as int);
                        assert(!all_digits(whole)) by {
                            if all_digits(whole) {
                                assert forall|i: int|
                                    0 <= i < head.len() implies is_digit(#[trigger] head[i]) by {
                                    assert(head[i] == whole[i]);
                                }
                            }
                        }
                    }
                    return None;
                },
            };
            let ghost dv = digits_val(chars@.subrange(p + 1 as int, frac_end as int));
            // the fractional digits past the fourth only need to be digits
            let mut j = frac_end;
            while j < chars.len()
                invariant
                    p + 1 <= frac_end <= j <= chars@.len(),
                    forall|w: int| frac_end <= w < j ==> is_digit(#[trigger] chars@[w]),
                    all_digits(chars@.subrange(p + 1 as int, frac_end as int)),
                    p < chars@.len(),
                    spec_dot_pos(chars@) == Some(p as int),
                decreases chars@.len() - j,
            {
                let c = chars[j];
                if c < '0' || c > '9' {
                    proof {
                        let whole = chars@.subrange(p + 1 as int, chars@.len() as int);
                        assert(whole[j - (p + 1)] == c);
                        assert(!all_digits(whole));
                    }
                    return None;
                }
                j = j + 1;
            }
            proof {
                let whole = chars@.subrange(p + 1 as int, chars@.len() as int);
                let head = chars@.subrange(p + 1 as int, frac_end as int);
                assert forall|i: int| 0 <= i < whole.len() implies is_digit(
                    #[trigger] whole[i],
                ) by {
                    if i < head.len() {
                        assert(whole[i] == head[i]);
                    } else {
                        assert(whole[i] == chars@[p + 1 + i]);
                    }
                }
                assert(valid_decimal(chars@));
            }
            let frac_len = frac_end - (p + 1);
            let mut frac_scaled: i64 = frac_digits;
            let mut fill = frac_len;
            proof {
                lemma_digits_val_nonneg(chars@.subrange(p + 1 as int, frac_end as int));
                assert(pow10(0) == 1);
                assert(spec_cap(dv * pow10((fill - frac_len) as nat)) == spec_cap(dv));
            }
            while fill < 4
                invariant
                    frac_len <= 4,
                    frac_len <= fill <= 4,
                    0 <= dv,
                    frac_scaled == spec_cap(dv * pow10((fill - frac_len) as nat)),
                    0 <= frac_scaled <= VAL_CAP,
                decreases 4 - fill,
            {
                proof {
                    lemma_cap_mul10(dv, (fill - frac_len) as nat);
                }
                let nx = frac_scaled * 10;
                frac_scaled = if nx > VAL_CAP {
                    VAL_CAP
                } else {
                    nx
                };
                fill = fill + 1;
            }
            let total = cap_total(int_part, frac_scaled);
            proof {
                lemma_frac4_shape(chars@, p as int, frac_end as int);
                lemma_digits_val_nonneg(chars@.subrange(0, p as int));
                if frac_len >= 4 {
                    assert(frac_len == 4);
                    assert(frac_scaled == spec_cap(dv));
                    assert(frac4_of(chars@, p as int) == dv);
                } else {
                    assert(frac4_of(chars@, p as int) == dv * pow10((4 - frac_len) as nat));
                }
                assert(frac4_of(chars@, p as int) >= 0) by {
                    lemma_pow10_pos((4 - (if frac_len >= 4 {
                        4int
                    } else {
                        frac_len as int
                    })) as nat);
                    if frac_len < 4 {
                        assert(dv * pow10((4 - frac_len) as nat) >= 0) by (nonlinear_arith)
                            requires
                                dv >= 0,
                                pow10((4 - frac_len) as nat) >= 1,
                        ;
                    }
                }
                lemma_total_clamp(
                    digits_val(chars@.subrange(0, p as int)),
                    int_part as int,
                    frac4_of(chars@, p as int),
                    frac_scaled as int,
                );
            }
            Some(total)
        },
        None => {
            if chars.len() == 0 {
                return None;
            }
            match digits_value(chars, 0, chars.len()) {
                Some(v) => {
                    proof {
                        assert(chars@.subrange(0, chars@.len() as int) == chars@);
                        lemma_digits_val_nonneg(chars@);
                        lemma_total_clamp(digits_val(chars@), v as int, 0, 0);
                        assert(decimal_times_1e4(chars@) == digits_val(chars@) * 10000);
                    }
                    let total = cap_total(v, 0);
                    Some(total)
                },
                None => {
                    proof {
                        assert(chars@.subrange(0, chars@.len() as int) == chars@);
                    }
                    None
                },
            }
        },
    }
}

/// The fractional contribution of the numeral after the point.
pub open spec fn frac4_of(s: Seq<char>, p: int) -> int {
    frac4_val(s.subrange(p + 1, s.len() as int))
}

/// The capped value of a digit range, or nothing when a non-digit stands in
/// it.
fn digits_value(chars: &Vec<char>, from: usize, to: usize) -> (r: Option<i64>)
    requires
        from <= to <= chars@.len(),
    ensures
        match r {
            Some(v) => all_digits(chars@.subrange(from as int, to as int)) && v == spec_cap(
                digits_val(chars@.subrange(from as int, to as int)),
            ) && 0 <= v <= VAL_CAP,
            None => !all_digits(chars@.subrange(from as int, to as int)),
        },
{
    let mut acc: i64 = 0;
    let mut k = from;
    while k < to
        invariant
            from <= k <= to <= chars@.len(),
            all_digits(chars@.subrange(from as int, k as int)),
            acc == spec_cap(digits_val(chars@.subrange(from as int, k as int))),
            0 <= acc <= VAL_CAP,
        decreases to - k,
    {
        let ghost prefix = chars@.subrange(from as int, k as int);
        let c = chars[k];
        if c < '0' || c > '9' {
            proof {
                let full = chars@.subrange(from as int, to as int);
                assert(full[k - from] == c);
                assert(!is_digit(c));
            }
            return None;
        }
        proof {
            lemma_digits_val_push(prefix, c);
            lemma_digits_val_nonneg(prefix);
            lemma_cap_step(digits_val(prefix), acc as int, digit_val(c));
            assert(prefix.push(c) == chars@.subrange(from as int, k + 1 as int));
        }
        acc = acc_digit(acc, c as u32 - '0' as u32);
        k = k + 1;
    }
    proof {
        let full = chars@.subrange(from as int, to as int);
        assert forall|i: int| 0 <= i < full.len() implies is_digit(#[trigger] full[i]) by {
            assert(full[i] == chars@.subrange(from as int, k as int)[i]);
        }
        assert(chars@.subrange(from as int, k as int) == full);
    }
    Some(acc)
}

/// Clamp `int_cap * 10000 + frac_cap` into `i32`.
fn cap_total(int_cap: i64, frac_cap: i64) -> (r: i32)
    requires
        0 <= int_cap <= VAL_CAP,
        0 <= frac_cap <= VAL_CAP,
    ensures
        r == (if int_cap * 10000 + frac_cap > i32::MAX {
            i32::MAX
        } else {
            (int_cap * 10000 + frac_cap) as i32
        }),
{
    let total = int_cap * 10000 + frac_cap;
    if total > i32::MAX as i64 {
        i32::MAX
    } else {
        total as i32
    }
}

/// Scaling a capped value by ten caps like scaling the value.
proof fn lemma_cap_mul10(v: int, e: nat)
    requires
        0 <= v,
    ensures
        spec_cap(spec_cap(v * pow10(e)) * 10) == spec_cap(v * pow10(e + 1)),
{
    lemma_pow10_pos(e);
    assert(pow10(e + 1) == 10 * pow10(e));
    if v * pow10(e) > VAL_CAP {
        assert(v * pow10(e + 1) == (v * pow10(e)) * 10) by (nonlinear_arith);
        assert(v * pow10(e + 1) >= v * pow10(e)) by (nonlinear_arith)
            requires
                v * pow10(e) > VAL_CAP,
                pow10(e + 1) == 10 * pow10(e),
        ;
    } else {
        assert(v * pow10(e + 1) == (v * pow10(e)) * 10) by (nonlinear_arith);
    }
}

/// Ten to any power is positive.
proof fn lemma_pow10_pos(e: nat)
    ensures
        pow10(e) >= 1,
    decreases e,
{
    if e > 0 {
        lemma_pow10_pos((e - 1) as nat);
    }
}

/// Clamping capped parts clamps the true total.
proof fn lemma_total_clamp(int_true: int, int_cap: int, frac_true: int, frac_cap: int)
    requires
        int_cap == spec_cap(int_true),
        frac_cap == spec_cap(frac_true),
        0 <= int_true,
        0 <= frac_true,
    ensures
        (if int_cap * 10000 + frac_cap > i32::MAX {
            i32::MAX
        } else {
            (int_cap * 10000 + frac_cap) as i32
        }) == clamp_i32(int_true * 10000 + frac_true),
{
    if int_true > VAL_CAP {
        assert(int_cap == VAL_CAP);
        assert(int_cap * 10000 + frac_cap > i32::MAX);
        assert(int_true * 10000 + frac_true > i32::MAX) by (nonlinear_arith)
            requires
                int_true > VAL_CAP,
                0 <= frac_true,
        ;
    } else if frac_true > VAL_CAP {
        assert(frac_cap == VAL_CAP);
        assert(int_cap * 10000 + frac_cap > i32::MAX);
        assert(int_true * 10000 + frac_true > i32::MAX) by (nonlinear_arith)
            requires
                frac_true > VAL_CAP,
                0 <= int_true,
        ;
    } else {
        assert(int_cap == int_true && frac_cap == frac_true);
    }
}

/// When the whole fractional range is digits, the value computed from the
/// first four (or the padding) is the numeral's fractional contribution.
proof fn lemma_frac4_shape(s: Seq<char>, p: int, frac_end: int)
    requires
        0 <= p < s.len(),
        p < frac_end <= s.len(),
        frac_end == (if s.len() - (p + 1) >= 4 {
            p + 5
        } else {
            s.len() as int
        }),
    ensures
        (if s.len() - (p + 1) >= 4 {
            frac4_of(s, p) == digits_val(s.subrange(p + 1, frac_end))
        } else {
            frac4_of(s, p) == digits_val(s.subrange(p + 1, frac_end)) * pow10(
                (4 - (s.len() - (p + 1))) as nat,
            )
        }),
{
    let frac = s.subrange(p + 1, s.len() as int);
    if s.len() - (p + 1) >= 4 {
        assert(frac.subrange(0, 4) == s.subrange(p + 1, p + 5));
    } else {
        assert(frac == s.subrange(p + 1, frac_end));
    }
}

} // verus!
