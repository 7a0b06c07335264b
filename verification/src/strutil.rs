//! Character-level string helpers shared by the parsers and the artifact
//! generator: conversions between `&str` and `Vec<char>`, equality and
//! search over character sequences, and decimal encoding and decoding.

use vstd::prelude::*;

verus! {

/// Convert a string slice into the vector of its characters, in order.
pub fn str_to_chars(s: &str) -> (r: Vec<char>)
    ensures
        r@ == s@,
{
    let n: usize = s.unicode_len();
    let mut r: Vec<char> = Vec::new();
    let mut i: usize = 0;
    while i < n
        invariant
            i <= n,
            n == s@.len(),
            r@ == s@.subrange(0, i as int),
        decreases n - i,
    {
        r.push(s.get_char(i));
        i = i + 1;
        proof {
            assert(r@ =~= s@.subrange(0, i as int));
        }
    }
    proof {
        assert(r@ =~= s@);
    }
    r
}

/// Collects a vector of characters back into an owned string.
///
/// Relies on `core::iter::Iterator::collect` for `String`, which appends
/// the iterated characters in order.
#[verifier::external_body]
pub fn chars_to_string(v: &Vec<char>) -> (r: String)
    ensures
        r@ == v@,
{
    v.iter().collect()
}

/// Character-by-character equality of two string slices.
pub fn str_eq(a: &str, b: &str) -> (r: bool)
    ensures
        r == (a@ == b@),
{
    let na: usize = a.unicode_len();
    let nb: usize = b.unicode_len();
    if na != nb {
        proof {
            if a@ == b@ {
                assert(a@.len() == b@.len());
            }
        }
        return false;
    }
    let mut i: usize = 0;
    while i < na
        invariant
            i <= na,
            na == a@.len(),
            na == b@.len(),
            forall|j: int| 0 <= j < i ==> a@[j] == b@[j],
        decreases na - i,
    {
        if a.get_char(i) != b.get_char(i) {
            proof {
                if a@ == b@ {
                    assert(a@[i as int] == b@[i as int]);
                }
            }
            return false;
        }
        i = i + 1;
    }
    proof {
        assert(a@ =~= b@);
    }
    true
}

/// True when `sub` occurs in `s` starting at position `at`.
pub open spec fn matches_at(s: Seq<char>, sub: Seq<char>, at: int) -> bool {
    &&& 0 <= at
    &&& at + sub.len() <= s.len()
    &&& s.subrange(at, at + sub.len() as int) == sub
}

/// True when `sub` occurs somewhere in `s`.
pub open spec fn contains_seq(s: Seq<char>, sub: Seq<char>) -> bool {
    exists|at: int| matches_at(s, sub, at)
}

/// The first position at or after which `sub` occurs in `s` is `at`.
pub open spec fn first_match_at(s: Seq<char>, sub: Seq<char>, at: int) -> bool {
    &&& matches_at(s, sub, at)
    &&& forall|j: int| 0 <= j < at ==> !matches_at(s, sub, j)
}

/// Whether the characters of `sub` appear in `v` starting at `at`.
pub fn chars_match_at(v: &Vec<char>, sub: &Vec<char>, at: usize) -> (r: bool)
    requires
        at + sub@.len() <= v@.len(),
    ensures
        r == matches_at(v@, sub@, at as int),
{
    let n: usize = v.len();
    let m: usize = sub.len();
    let mut k: usize = 0;
    while k < m
        invariant
            k <= m,
            m == sub@.len(),
            n == v@.len(),
            at + m <= n,
            forall|j: int| 0 <= j < k ==> v@[at + j] == sub@[j],
        decreases m - k,
    {
        if v[at + k] != sub[k] {
            proof {
                if matches_at(v@, sub@, at as int) {
                    assert(v@.subrange(at as int, at + m as int)[k as int] == sub@[k as int]);
                }
            }
            return false;
        }
        k = k + 1;
    }
    proof {
        assert(v@.subrange(at as int, at + m as int) =~= sub@);
    }
    true
}

/// The position of the first occurrence of `sub` in `v`, if there is one.
pub fn find_first(v: &Vec<char>, sub: &Vec<char>) -> (r: Option<usize>)
    ensures
        match r {
            Some(at) => first_match_at(v@, sub@, at as int),
            None => !contains_seq(v@, sub@),
        },
{
    let n: usize = v.len();
    let m: usize = sub.len();
    if m > n {
        proof {
            assert(forall|at: int| !matches_at(v@, sub@, at));
        }
        return None;
    }
    if m == 0 {
        proof {
            assert(v@.subrange(0, 0) =~= sub@);
        }
        return Some(0);
    }
    let mut i: usize = 0;
    while i <= n - m
        invariant
            0 < m <= n,
            n == v@.len(),
            m == sub@.len(),
            i <= n - m + 1,
            forall|j: int| 0 <= j < i ==> !matches_at(v@, sub@, j),
        decreases n - m + 1 - i,
    {
        if chars_match_at(v, sub, i) {
            return Some(i);
        }
        i = i + 1;
    }
    proof {
        assert(forall|at: int| at + m > n ==> !matches_at(v@, sub@, at));
    }
    None
}

/// The decimal digit character for a value below ten.
pub open spec fn digit_char(d: int) -> char {
    if d == 0 {
        '0'
    } else if d == 1 {
        '1'
    } else if d == 2 {
        '2'
    } else if d == 3 {
        '3'
    } else if d == 4 {
        '4'
    } else if d == 5 {
        '5'
    } else if d == 6 {
        '6'
    } else if d == 7 {
        '7'
    } else if d == 8 {
        '8'
    } else {
        '9'
    }
}

/// The shortest decimal encoding of a natural number, most significant
/// digit first.
pub open spec fn dec_chars(n: nat) -> Seq<char>
    decreases n,
{
    if n < 10 {
        seq![digit_char(n as int)]
    } else {
        dec_chars(n / 10).push(digit_char((n % 10) as int))
    }
}

/// The digit character for a value below ten, as executable code.
pub fn digit_char_of(d: u64) -> (r: char)
    requires
        d < 10,
    ensures
        r == digit_char(d as int),
{
    match d {
        0 => '0',
        1 => '1',
        2 => '2',
        3 => '3',
        4 => '4',
        5 => '5',
        6 => '6',
        7 => '7',
        8 => '8',
        _ => '9',
    }
}

/// The decimal encoding of `n`, as characters.
pub fn u64_to_chars(n: u64) -> (r: Vec<char>)
    ensures
        r@ == dec_chars(n as nat),
{
    let mut digits: Vec<char> = Vec::new();
    let mut m: u64 = n;
    digits.push(digit_char_of(m % 10));
    m = m / 10;
    while m > 0
        invariant
            dec_chars(n as nat) == if m > 0 {
                dec_chars(m as nat) + digits@
            } else {
                digits@
            },
        decreases m,
    {
        digits.insert(0, digit_char_of(m % 10));
        proof {
            if m >= 10 {
                assert(dec_chars(m as nat) =~= dec_chars((m / 10) as nat) + seq![
                    digit_char((m % 10) as int),
                ]);
                assert(dec_chars(m as nat) + digits@.subrange(1, digits@.len() as int) =~= dec_chars(
                    (m / 10) as nat,
                ) + digits@);
            } else {
                assert(dec_chars(m as nat) =~= seq![digit_char(m as int)]);
                assert(dec_chars(m as nat) + digits@.subrange(1, digits@.len() as int)
                    =~= digits@);
            }
        }
        m = m / 10;
    }
    digits
}

/// The decimal encoding of a signed value: a minus sign for negative
/// values, then the digits of the magnitude.
pub open spec fn dec_chars_signed(n: int) -> Seq<char> {
    if n < 0 {
        seq!['-'] + dec_chars((-n) as nat)
    } else {
        dec_chars(n as nat)
    }
}

/// The decimal encoding of `n`, as characters, sign included.
pub fn i64_to_chars(n: i64) -> (r: Vec<char>)
    ensures
        r@ == dec_chars_signed(n as int),
{
    if n >= 0 {
        u64_to_chars(n as u64)
    } else {
        let mag: u64 = ((-(n + 1)) as u64) + 1;
        let mut r: Vec<char> = Vec::new();
        r.push('-');
        let mut tail = u64_to_chars(mag);
        r.append(&mut tail);
        proof {
            assert(r@ =~= dec_chars_signed(n as int));
        }
        r
    }
}

/// The numeric value of a digit character, or ten for any other character.
pub open spec fn char_digit(c: char) -> int {
    if c == '0' {
        0
    } else if c == '1' {
        1
    } else if c == '2' {
        2
    } else if c == '3' {
        3
    } else if c == '4' {
        4
    } else if c == '5' {
        5
    } else if c == '6' {
        6
    } else if c == '7' {
        7
    } else if c == '8' {
        8
    } else if c == '9' {
        9
    } else {
        10
    }
}

/// Whether `c` is a decimal digit.
pub open spec fn is_digit(c: char) -> bool {
    char_digit(c) < 10
}

/// Whether every character of `s` is a decimal digit.
pub open spec fn all_digits(s: Seq<char>) -> bool {
    forall|i: int| 0 <= i < s.len() ==> is_digit(#[trigger] s[i])
}

/// The numeric value of a digit sequence, most significant digit first.
pub open spec fn digits_val(s: Seq<char>) -> nat
    decreases s.len(),
{
    if s.len() == 0 {
        0
    } else {
        digits_val(s.drop_last()) * 10 + (if is_digit(s.last()) {
            char_digit(s.last()) as nat
        } else {
            0
        })
    }
}

/// Whether `c` is a decimal digit, as executable code.
pub fn is_digit_char(c: char) -> (r: bool)
    ensures
        r == is_digit(c),
{
    c == '0' || c == '1' || c == '2' || c == '3' || c == '4' || c == '5' || c == '6' || c == '7'
        || c == '8' || c == '9'
}

/// The numeric value of a digit character, as executable code.
pub fn char_digit_of(c: char) -> (r: u64)
    requires
        is_digit(c),
    ensures
        r == char_digit(c),
{
    match c {
        '0' => 0,
        '1' => 1,
        '2' => 2,
        '3' => 3,
        '4' => 4,
        '5' => 5,
        '6' => 6,
        '7' => 7,
        '8' => 8,
        _ => 9,
    }
}

/// Parse the digit characters `v[from..to]` as a natural number.
///
/// Fails when the range is empty, holds a non-digit, or encodes a value
/// above `u64::MAX`.
pub fn parse_digits(v: &Vec<char>, from: usize, to: usize) -> (r: Option<u64>)
    requires
        from <= to <= v@.len(),
    ensures
        match r {
            Some(value) => {
                &&& to > from
                &&& all_digits(v@.subrange(from as int, to as int))
                &&& value == digits_val(v@.subrange(from as int, to as int))
            },
            None => {
                ||| to == from
                ||| !all_digits(v@.subrange(from as int, to as int))
                ||| digits_val(v@.subrange(from as int, to as int)) > u64::MAX
            },
        },
{
    if from == to {
        return None;
    }
    let mut acc: u64 = 0;
    let mut i: usize = from;
    while i < to
        invariant
            from <= i <= to <= v@.len(),
            all_digits(v@.subrange(from as int, i as int)),
            acc == digits_val(v@.subrange(from as int, i as int)),
        decreases to - i,
    {
        let c = v[i];
        if !is_digit_char(c) {
            proof {
                assert(v@.subrange(from as int, to as int)[i - from] == c);
            }
            return None;
        }
        let d = char_digit_of(c);
        if acc > (u64::MAX - d) / 10 {
            proof {
                let cur = v@.subrange(from as int, i + 1);
                assert(cur.drop_last() =~= v@.subrange(from as int, i as int));
                assert(digits_val(cur) == acc * 10 + d);
                lemma_digits_val_monotone(v@, from as int, i + 1, to as int);
            }
            return None;
        }
        acc = acc * 10 + d;
        i = i + 1;
        proof {
            let cur = v@.subrange(from as int, i as int);
            assert(cur.drop_last() =~= v@.subrange(from as int, i - 1));
            assert(cur.last() == c);
        }
    }
    proof {
        assert(v@.subrange(from as int, to as int) =~= v@.subrange(from as int, i as int));
    }
    Some(acc)
}

/// A longer digit prefix never encodes a smaller value.
proof fn lemma_digits_val_monotone(s: Seq<char>, from: int, mid: int, to: int)
    requires
        0 <= from <= mid <= to <= s.len(),
    ensures
        digits_val(s.subrange(from, to)) >= digits_val(s.subrange(from, mid)),
    decreases to - mid,
{
    if mid < to {
        lemma_digits_val_monotone(s, from, mid + 1, to);
        let longer = s.subrange(from, mid + 1);
        assert(longer.drop_last() =~= s.subrange(from, mid));
        assert(digits_val(longer) >= digits_val(s.subrange(from, mid)));
    } else {
        assert(s.subrange(from, to) =~= s.subrange(from, mid));
    }
}

/// The characters of `v[from..to]`, as a vector.
pub fn slice_chars(v: &Vec<char>, from: usize, to: usize) -> (r: Vec<char>)
    requires
        from <= to <= v@.len(),
    ensures
        r@ == v@.subrange(from as int, to as int),
{
    let mut r: Vec<char> = Vec::new();
    let mut i: usize = from;
    while i < to
        invariant
            from <= i <= to <= v@.len(),
            r@ == v@.subrange(from as int, i as int),
        decreases to - i,
    {
        r.push(v[i]);
        i = i + 1;
        proof {
            assert(r@ =~= v@.subrange(from as int, i as int));
        }
    }
    r
}

/// Append every character of `s` to `out`.
pub fn push_str_chars(out: &mut Vec<char>, s: &str)
    ensures
        final(out)@ == old(out)@ + s@,
{
    let n: usize = s.unicode_len();
    let mut i: usize = 0;
    while i < n
        invariant
            i <= n,
            n == s@.len(),
            out@ == old(out)@ + s@.subrange(0, i as int),
        decreases n - i,
    {
        out.push(s.get_char(i));
        i = i + 1;
        proof {
            assert(out@ =~= old(out)@ + s@.subrange(0, i as int));
        }
    }
    proof {
        assert(out@ =~= old(out)@ + s@);
    }
}


/// The signed decimal value a character sequence denotes under the
/// usual integer syntax: an optional sign, then digits.
pub open spec fn spec_parse_i64(s: Seq<char>) -> Option<int> {
    if s.len() >= 1 && (s[0] == '-' || s[0] == '+') {
        let rest = s.subrange(1, s.len() as int);
        if rest.len() > 0 && all_digits(rest) {
            if s[0] == '-' {
                if digits_val(rest) <= 0x8000000000000000 {
                    Some(-(digits_val(rest) as int))
                } else {
                    None
                }
            } else {
                if digits_val(rest) <= 0x7fffffffffffffff {
                    Some(digits_val(rest) as int)
                } else {
                    None
                }
            }
        } else {
            None
        }
    } else if s.len() > 0 && all_digits(s) && digits_val(s) <= 0x7fffffffffffffff {
        Some(digits_val(s) as int)
    } else {
        None
    }
}

/// Parse a signed decimal integer.
pub fn parse_i64(s: &str) -> (r: Option<i64>)
    ensures
        match r {
            Some(v) => spec_parse_i64(s@) == Some(v as int),
            None => spec_parse_i64(s@) is None,
        },
{
    let v = str_to_chars(s);
    let n: usize = v.len();
    if n == 0 {
        return None;
    }
    let c0 = v[0];
    if c0 == '-' || c0 == '+' {
        if n == 1 {
            proof {
                assert(v@.subrange(1, n as int).len() == 0);
            }
            return None;
        }
        match parse_digits(&v, 1, n) {
            Some(mag) => {
                proof {
                    assert(v@.subrange(1, n as int) =~= s@.subrange(1, n as int));
                }
                if c0 == '-' {
                    if mag <= 0x8000000000000000 {
                        if mag == 0x8000000000000000 {
                            Some(i64::MIN)
                        } else {
                            Some(-(mag as i64))
                        }
                    } else {
                        None
                    }
                } else {
                    if mag <= 0x7fffffffffffffff {
                        Some(mag as i64)
                    } else {
                        None
                    }
                }
            },
            None => {
                proof {
                    let rest = v@.subrange(1, n as int);
                    if rest.len() > 0 && all_digits(rest) && digits_val(rest) > u64::MAX {
                        lemma_digits_val_u64_bound(rest);
                    }
                }
                None
            },
        }
    } else {
        match parse_digits(&v, 0, n) {
            Some(mag) => {
                proof {
                    assert(v@.subrange(0, n as int) =~= v@);
                }
                if mag <= 0x7fffffffffffffff {
                    Some(mag as i64)
                } else {
                    None
                }
            },
            None => {
                proof {
                    assert(v@.subrange(0, n as int) =~= v@);
                    if all_digits(v@) && digits_val(v@) > u64::MAX {
                        lemma_digits_val_u64_bound(v@);
                    }
                }
                None
            },
        }
    }
}

/// A digit string whose value fits `u64` is rejected by `parse_digits`
/// only for a syntactic reason, never silently.
proof fn lemma_digits_val_u64_bound(s: Seq<char>)
    requires
        s.len() > 0,
        all_digits(s),
        digits_val(s) > u64::MAX,
    ensures
        digits_val(s) > 0x8000000000000000,
{
}

} // verus!
