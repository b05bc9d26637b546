//! Small verified text helpers: comparison, decimal parsing and printing.
use vstd::prelude::*;

verus! {

/// True when `c` is an ASCII decimal digit.
pub open spec fn is_digit(c: char) -> bool {
    '0' <= c && c <= '9'
}

/// Numeric value of a decimal digit character.
pub open spec fn digit_value(c: char) -> int {
    (c as int) - ('0' as int)
}

/// Value of a sequence of decimal digits, most significant first.
pub open spec fn digits_value(s: Seq<char>) -> int
    decreases s.len(),
{
    if s.len() == 0 {
        0
    } else {
        digits_value(s.drop_last()) * 10 + digit_value(s.last())
    }
}

pub open spec fn all_digits(s: Seq<char>) -> bool {
    forall|i: int| 0 <= i < s.len() ==> is_digit(#[trigger] s[i])
}

/// The digits of an unsigned number text: an optional leading `+` is dropped.
pub open spec fn unsigned_digits(s: Seq<char>) -> Seq<char> {
    if s.len() > 0 && s[0] == '+' {
        s.drop_first()
    } else {
        s
    }
}

/// An unsigned decimal number: an optional `+`, then one or more digits.
pub open spec fn is_unsigned_text(s: Seq<char>) -> bool {
    unsigned_digits(s).len() > 0 && all_digits(unsigned_digits(s))
}

/// What a text parses to as a `u32`, or `None` when it is not a number or does not fit.
pub open spec fn u32_of_text(s: Seq<char>) -> Option<u32> {
    if is_unsigned_text(s) && digits_value(unsigned_digits(s)) <= u32::MAX {
        Some(digits_value(unsigned_digits(s)) as u32)
    } else {
        None
    }
}

/// The character of a digit `0..=9`.
pub open spec fn digit_char(d: nat) -> char {
    seq!['0', '1', '2', '3', '4', '5', '6', '7', '8', '9'][d as int]
}

/// Decimal representation of `n`, without leading zeros.
pub open spec fn decimal_chars(n: nat) -> Seq<char>
    decreases n,
{
    if n < 10 {
        seq![digit_char(n)]
    } else {
        decimal_chars(n / 10).push(digit_char(n % 10))
    }
}

proof fn lemma_digits_value_nonneg(s: Seq<char>)
    requires
        all_digits(s),
    ensures
        digits_value(s) >= 0,
    decreases s.len(),
{
    if s.len() > 0 {
        assert(is_digit(s[s.len() - 1]));
        lemma_digits_value_nonneg(s.drop_last());
    }
}

/// Character-wise equality of two texts.
pub fn same_text(a: &str, b: &str) -> (r: bool)
    ensures
        r == (a@ == b@),
{
    let n = a.unicode_len();
    if n != b.unicode_len() {
        return false;
    }
    let mut i: usize = 0;
    while i < n
        invariant
            n == a@.len(),
            n == b@.len(),
            i <= n,
            forall|j: int| 0 <= j < i ==> a@[j] == b@[j],
        decreases n - i,
    {
        if a.get_char(i) != b.get_char(i) {
            return false;
        }
        i = i + 1;
    }
    assert(a@ =~= b@);
    true
}

/// Parses an unsigned decimal `u32`: an optional `+` followed by digits.
pub fn parse_u32(s: &str) -> (r: Option<u32>)
    ensures
        r == u32_of_text(s@),
{
    let n = s.unicode_len();
    let mut start: usize = 0;
    if n > 0 && s.get_char(0) == '+' {
        start = 1;
    }
    let ghost d = unsigned_digits(s@);
    assert(d =~= s@.subrange(start as int, n as int));
    if start == n {
        return None;
    }
    let big: u64 = 4294967296;
    let mut acc: u64 = 0;
    let mut i: usize = start;
    while i < n
        invariant
            n == s@.len(),
            start <= i <= n,
            big == 4294967296,
            d == s@.subrange(start as int, n as int),
            d == unsigned_digits(s@),
            all_digits(d.subrange(0, i - start)),
            acc == if digits_value(d.subrange(0, i - start)) > u32::MAX {
                big as int
            } else {
                digits_value(d.subrange(0, i - start))
            },
        decreases n - i,
    {
        let c = s.get_char(i);
        if !('0' <= c && c <= '9') {
            assert(d[i - start] == c);
            assert(!is_digit(d[i - start]));
            assert(!all_digits(d));
            return None;
        }
        let ghost p = d.subrange(0, i - start);
        let ghost q = d.subrange(0, i - start + 1);
        assert(q.drop_last() =~= p);
        assert(q.last() == c);
        assert(all_digits(q)) by {
            assert forall|j: int| 0 <= j < q.len() implies is_digit(#[trigger] q[j]) by {
                if j < p.len() {
                    assert(q[j] == p[j]);
                }
            }
        }
        proof {
            lemma_digits_value_nonneg(p);
        }
        let dv: u64 = (c as u32 - '0' as u32) as u64;
        if acc < big {
            acc = acc * 10 + dv;
            if acc > u32::MAX as u64 {
                acc = big;
            }
        } else {
            assert(digits_value(q) > u32::MAX) by (nonlinear_arith)
                requires
                    digits_value(q) == digits_value(p) * 10 + digit_value(c),
                    digits_value(p) > u32::MAX,
                    digit_value(c) >= 0,
            ;
        }
        i = i + 1;
    }
    assert(d.subrange(0, n - start) =~= d);
    if acc < big {
        Some(acc as u32)
    } else {
        None
    }
}

/// Writes `n` in decimal.
pub fn decimal_text(n: u32) -> (r: String)
    ensures
        r@ == decimal_chars(n as nat),
    decreases n,
{
    let digits = "0123456789";
    proof {
        reveal_strlit("0123456789");
    }
    if n < 10 {
        let one = digits.substring_char(n as usize, n as usize + 1);
        assert(one@ =~= seq![digit_char(n as nat)]);
        String::from_str(one)
    } else {
        let mut r = decimal_text(n / 10);
        let d = (n % 10) as usize;
        let one = digits.substring_char(d, d + 1);
        assert(one@ =~= seq![digit_char((n % 10) as nat)]);
        r.append(one);
        r
    }
}

} // verus!
