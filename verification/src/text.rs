//! Small string utilities shared by the models and the query builders.

use vstd::prelude::*;

verus! {

/// Character-wise equality of two string slices.
pub fn str_eq(a: &str, b: &str) -> (r: bool)
    ensures
        r == (a@ == b@),
{
    let n = a.unicode_len();
    if n != b.unicode_len() {
        return false;
    }
    let mut i: usize = 0;
    while i < n
        invariant
            n == a@.len(),
            n == b@.len(),
            i <= n,
            forall|j: int| 0 <= j < i ==> a@[j] == b@[j],
        decreases n - i,
    {
        if a.get_char(i) != b.get_char(i) {
            return false;
        }
        i += 1;
    }
    assert(a@ =~= b@);
    true
}

/// Whether `p` occurs in `s` as a run of consecutive characters.
pub open spec fn contains_text(s: Seq<char>, p: Seq<char>) -> bool {
    exists|i: int| 0 <= i && i + p.len() <= s.len() && #[trigger] s.subrange(i, i + p.len()) == p
}

fn matches_at(s: &str, p: &str, i: usize) -> (r: bool)
    requires
        i + p@.len() <= s@.len(),
    ensures
        r == (s@.subrange(i as int, i + p@.len()) == p@),
{
    let sn = s.unicode_len();
    let n = p.unicode_len();
    let mut j: usize = 0;
    while j < n
        invariant
            n == p@.len(),
            sn == s@.len(),
            j <= n,
            i + n <= s@.len(),
            forall|k: int| 0 <= k < j ==> s@[i + k] == p@[k],
        decreases n - j,
    {
        if s.get_char(i + j) != p.get_char(j) {
            assert(s@.subrange(i as int, i + n)[j as int] != p@[j as int]);
            return false;
        }
        j += 1;
    }
    assert(s@.subrange(i as int, i + n) =~= p@);
    true
}

/// Whether `p` occurs in `s`.
pub fn text_contains(s: &str, p: &str) -> (r: bool)
    ensures
        r == contains_text(s@, p@),
{
    let n = s.unicode_len();
    let m = p.unicode_len();
    if m > n {
        return false;
    }
    if m == 0 {
        assert(s@.subrange(0int, 0int + p@.len()) =~= p@);
        return true;
    }
    let mut i: usize = 0;
    while i <= n - m
        invariant
            n == s@.len(),
            m == p@.len(),
            0 < m <= n,
            i <= n - m + 1,
            forall|k: int| 0 <= k < i ==> #[trigger] s@.subrange(k, k + m) != p@,
        decreases n - m + 1 - i,
    {
        if matches_at(s, p, i) {
            return true;
        }
        i += 1;
    }
    false
}

/// Copy of an optional string.
pub fn clone_opt_string(o: &Option<String>) -> (r: Option<String>)
    ensures
        r == *o,
{
    match o {
        Some(s) => Some(s.clone()),
        None => None,
    }
}

/// Appends one character with std's `String::push`.  Claimed: the string
/// afterwards is the string before with that character added at its end.
#[verifier::external_body]
pub(crate) fn push_char(s: &mut String, c: char)
    ensures
        final(s)@ == old(s)@.push(c),
{
    s.push(c);
}

/// The character of a digit value below sixteen, lower-case for ten and up.
pub open spec fn digit_char(d: nat) -> char {
    if d == 0 { '0' }
    else if d == 1 { '1' }
    else if d == 2 { '2' }
    else if d == 3 { '3' }
    else if d == 4 { '4' }
    else if d == 5 { '5' }
    else if d == 6 { '6' }
    else if d == 7 { '7' }
    else if d == 8 { '8' }
    else if d == 9 { '9' }
    else if d == 10 { 'a' }
    else if d == 11 { 'b' }
    else if d == 12 { 'c' }
    else if d == 13 { 'd' }
    else if d == 14 { 'e' }
    else { 'f' }
}

/// Digits of `n` in `base` (2 to 16), most significant first, without
/// leading zeros; zero is written "0".
pub open spec fn digits(n: nat, base: nat) -> Seq<char>
    recommends
        2 <= base <= 16,
    decreases n,
{
    if base < 2 || n < base {
        seq![digit_char(n % 16)]
    } else {
        proof {
            assert(n / base < n) by (nonlinear_arith)
                requires
                    base >= 2,
                    n >= base,
            ;
        }
        digits(n / base, base).push(digit_char(n % base))
    }
}

/// Decimal text of an integer, with a leading '-' when negative.
pub open spec fn int_text(n: int) -> Seq<char> {
    if n < 0 {
        seq!['-'] + digits((-n) as nat, 10)
    } else {
        digits(n as nat, 10)
    }
}

/// Decimal text of `n` zero-padded to at least `width` characters, the sign
/// counted in the width and the zeros placed after it.
pub open spec fn padded_int_text(n: int, width: nat) -> Seq<char> {
    let sign: Seq<char> = if n < 0 { seq!['-'] } else { Seq::empty() };
    let ds = if n < 0 { digits((-n) as nat, 10) } else { digits(n as nat, 10) };
    let used = sign.len() + ds.len();
    let zeros = if used < width { Seq::new((width - used) as nat, |i: int| '0') } else { Seq::empty() };
    sign + zeros + ds
}

fn digit_char_exec(d: u64) -> (c: char)
    requires
        d < 16,
    ensures
        c == digit_char(d as nat),
{
    match d {
        0 => '0',
        1 => '1',
        2 => '2',
        3 => '3',
        4 => '4',
        5 => '5',
        6 => '6',
        7 => '7',
        8 => '8',
        9 => '9',
        10 => 'a',
        11 => 'b',
        12 => 'c',
        13 => 'd',
        14 => 'e',
        _ => 'f',
    }
}

proof fn lemma_digits_len(n: nat, base: nat)
    requires
        2 <= base <= 16,
    ensures
        digits(n, base).len() >= 1,
    decreases n,
{
    if n >= base {
        assert(n / base < n) by (nonlinear_arith)
            requires
                base >= 2,
                n >= base,
        ;
        lemma_digits_len(n / base, base);
    }
}

/// Appends the digits of `n` in `base`.
pub fn push_digits(s: &mut String, n: u64, base: u64)
    requires
        2 <= base <= 16,
    ensures
        final(s)@ == old(s)@ + digits(n as nat, base as nat),
    decreases n,
{
    if n >= base {
        assert(n / base < n) by (nonlinear_arith)
            requires
                base >= 2,
                n >= base,
        ;
        push_digits(s, n / base, base);
    }
    let d = n % base;
    push_char(s, digit_char_exec(d));
    proof {
        if n < base {
            assert(n % base == n) by (nonlinear_arith)
                requires
                    n < base,
            ;
            assert(n % 16 == n);
        }
        assert(digits(n as nat, base as nat) == (if n < base { Seq::<char>::empty() } else {
            digits((n / base) as nat, base as nat)
        }).push(digit_char((n % base) as nat)));
    }
}

/// Decimal text of a non-negative integer.
pub fn u64_to_decimal(n: u64) -> (r: String)
    ensures
        r@ == digits(n as nat, 10),
{
    let mut s = String::new();
    push_digits(&mut s, n, 10);
    assert(s@ =~= digits(n as nat, 10));
    s
}

/// Magnitude of an `i64` as `u64` (no overflow at `i64::MIN`).
fn magnitude(n: i64) -> (m: u64)
    ensures
        m as int == if n < 0 { -n } else { n as int },
{
    if n < 0 {
        ((-(n + 1)) as u64) + 1
    } else {
        n as u64
    }
}

/// Appends the decimal text of `n`.
pub fn push_int(s: &mut String, n: i64)
    ensures
        final(s)@ == old(s)@ + int_text(n as int),
{
    if n < 0 {
        push_char(s, '-');
    }
    let m = magnitude(n);
    push_digits(s, m, 10);
    proof {
        if n < 0 {
            assert(final(s)@ =~= old(s)@ + int_text(n as int));
        }
    }
}

/// Decimal text of `n`.
pub fn i64_to_decimal(n: i64) -> (r: String)
    ensures
        r@ == int_text(n as int),
{
    let mut s = String::new();
    push_int(&mut s, n);
    assert(s@ =~= int_text(n as int));
    s
}

/// Appends the decimal text of `n` zero-padded to `width` characters.
pub fn push_padded_int(s: &mut String, n: i64, width: usize)
    ensures
        final(s)@ == old(s)@ + padded_int_text(n as int, width as nat),
{
    let ghost start = s@;
    let mut body = String::new();
    let m = magnitude(n);
    push_digits(&mut body, m, 10);
    proof {
        lemma_digits_len(m as nat, 10);
    }
    let sign_len: usize = if n < 0 { 1 } else { 0 };
    if n < 0 {
        push_char(s, '-');
    }
    let ghost after_sign = s@;
    let len = body.unicode_len();
    let used = sign_len.checked_add(len);
    let zero_count: usize = match used {
        Some(u) => if u < width { width - u } else { 0 },
        None => 0,
    };
    let mut k: usize = 0;
    while k < zero_count
        invariant
            s@.len() == after_sign.len() + k,
            s@.subrange(0, after_sign.len() as int) == after_sign,
            forall|j: int| after_sign.len() <= j < s@.len() ==> s@[j] == '0',
            k <= zero_count,
        decreases zero_count - k,
    {
        push_char(s, '0');
        k += 1;
    }
    let ghost after_zeros = s@;
    s.append(body.as_str());
    proof {
        let ds = digits(m as nat, 10);
        let sign: Seq<char> = if n < 0 { seq!['-'] } else { Seq::empty() };
        let used = sign.len() + ds.len();
        let zeros: Seq<char> = if used < width { Seq::new((width - used) as nat, |i: int| '0') } else { Seq::empty() };
        assert(body@ == ds);
        assert(after_sign =~= start + sign);
        assert(after_zeros =~= after_sign + zeros);
        assert(s@ =~= start + sign + zeros + ds);
    }
}

} // verus!
