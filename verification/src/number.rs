//! Telling whether a text is that of a JSON number.

use crate::json::{
    are_digits, is_digit, is_exponent, is_number_text, is_unsigned_number, splits_as_number,
};
use crate::text::{decimal, decimal_digits};
use vstd::prelude::*;

verus! {

/// The digits from `from` on end at `end`: a digit stands at each place
/// between the two, and none at `end`.
pub open spec fn run_ends(s: Seq<char>, from: int, end: int) -> bool {
    &&& 0 <= from <= end <= s.len()
    &&& forall|i: int| from <= i < end ==> is_digit(#[trigger] s[i])
    &&& end == s.len() || !is_digit(s[end])
}

/// A part of a text is made of digits exactly where a run of digits covers
/// it.
proof fn lemma_digits_of_run(s: Seq<char>, from: int, to: int, end: int)
    requires
        run_ends(s, from, end),
        from <= to <= s.len(),
    ensures
        are_digits(s.subrange(from, to)) <==> from < to <= end,
{
    let part = s.subrange(from, to);
    if from < to <= end {
        assert forall|i: int| 0 <= i < part.len() implies is_digit(#[trigger] part[i]) by {
            assert(part[i] == s[from + i]);
        }
    }
    if are_digits(part) && to > end {
        assert(part[end - from] == s[end]);
    }
}

/// The whole part of a number is the run of digits at its start, and its
/// fraction, where it has one, the run of digits behind the point.
proof fn lemma_split_is_forced(s: Seq<char>, a: int, b: int, whole: int, fraction: int)
    requires
        splits_as_number(s, a, b),
        run_ends(s, 0, whole),
        whole < s.len() && s[whole] == '.' ==> run_ends(s, whole + 1, fraction),
    ensures
        a == whole,
        (whole < s.len() && s[whole] == '.') ==> b == fraction && fraction > whole + 1,
        !(whole < s.len() && s[whole] == '.') ==> b == whole,
{
    assert(s.take(a) =~= s.subrange(0, a));
    lemma_digits_of_run(s, 0, a, whole);
    assert(a <= whole);
    if b < s.len() {
        assert(s.skip(b)[0] == s[b]);
    }
    if a < whole {
        assert(is_digit(s[a]));
    }
    assert(a == whole);
    if whole < s.len() && s[whole] == '.' {
        assert(a < b);
        lemma_digits_of_run(s, whole + 1, b, fraction);
        if b < fraction {
            assert(is_digit(s[b]));
        }
    }
}

/// A text is an exponent exactly where it starts with `e` or `E`, goes on
/// with a sign or none, and ends with digits that fill the rest.
proof fn lemma_exponent(s: Seq<char>, from: int, digits: int, end: int)
    requires
        0 <= from < s.len(),
        s[from] == 'e' || s[from] == 'E',
        digits == if from + 1 < s.len() && (s[from + 1] == '+' || s[from + 1] == '-') {
            from + 2
        } else {
            from + 1
        },
        run_ends(s, digits, end),
    ensures
        is_exponent(s.skip(from)) <==> digits < end && end == s.len(),
{
    let x = s.skip(from);
    assert(x[0] == s[from]);
    if x.len() >= 2 {
        assert(x[1] == s[from + 1]);
        assert(x.skip(1) =~= s.subrange(from + 1, s.len() as int));
        assert(x.skip(2) =~= s.subrange(from + 2, s.len() as int));
        if digits == from + 2 {
            lemma_digits_of_run(s, from + 2, s.len() as int, end);
            if are_digits(x.skip(1)) {
                assert(x.skip(1)[0] == s[from + 1]);
            }
        } else {
            lemma_digits_of_run(s, from + 1, s.len() as int, end);
        }
    }
}

/// The decimal digits of a natural number are digits, and the first of them
/// is no zero unless the number is zero.
pub proof fn lemma_digits_of_natural(n: nat)
    ensures
        are_digits(decimal_digits(n)),
        n > 0 ==> decimal_digits(n)[0] != '0',
        n == 0 ==> decimal_digits(n).len() == 1,
    decreases n,
{
    if n >= 10 {
        lemma_digits_of_natural(n / 10);
    }
}

/// The decimal text of an integer is that of a JSON number.
pub proof fn lemma_decimal_is_number(n: int)
    ensures
        is_number_text(decimal(n)),
{
    let t = decimal(n);
    let m: nat = if n < 0 {
        (-n) as nat
    } else {
        n as nat
    };
    let s = decimal_digits(m);
    lemma_digits_of_natural(m);
    assert(s.take(s.len() as int) =~= s);
    assert(splits_as_number(s, s.len() as int, s.len() as int));
    if n < 0 {
        assert(t[0] == '-');
        assert(t.skip(1) =~= s);
    } else {
        assert(t == s);
        assert(is_digit(t[0]));
    }
}

/// Where the run of digits from `from` on ends.
fn digits_end(text: &str, n: usize, from: usize) -> (end: usize)
    requires
        n == text@.len(),
        from <= n,
    ensures
        run_ends(text@, from as int, end as int),
{
    let mut end = from;
    while end < n
        invariant
            n == text@.len(),
            from <= end <= n,
            forall|i: int| from <= i < end ==> is_digit(#[trigger] text@[i]),
        decreases n - end,
    {
        let c = text.get_char(end);
        if !('0' <= c && c <= '9') {
            return end;
        }
        end += 1;
    }
    end
}

/// A run of digits stays one where the text in front of it is left out.
proof fn lemma_run_shift(t: Seq<char>, k: int, from: int, end: int)
    requires
        run_ends(t, from, end),
        0 <= k <= from,
    ensures
        run_ends(t.skip(k), from - k, end - k),
{
    let s = t.skip(k);
    assert forall|i: int| from - k <= i < end - k implies is_digit(#[trigger] s[i]) by {
        assert(s[i] == t[i + k]);
    }
    if end < t.len() {
        assert(s[end - k] == t[end]);
    }
}

/// Whether a text is that of a JSON number.
pub fn is_number(text: &str) -> (number: bool)
    ensures
        number == is_number_text(text@),
{
    let n = text.unicode_len();
    let start: usize = if n > 0 && text.get_char(0) == '-' {
        1
    } else {
        0
    };
    let ghost s = text@.skip(start as int);
    assert(is_number_text(text@) == is_unsigned_number(s)) by {
        if start == 0 {
            assert(s =~= text@);
        }
    }
    let whole = digits_end(text, n, start);
    let has_point = whole < n && text.get_char(whole) == '.';
    let fraction = if has_point {
        digits_end(text, n, whole + 1)
    } else {
        whole
    };
    let ghost w = whole - start;
    let ghost f = fraction - start;
    proof {
        lemma_run_shift(text@, start as int, start as int, whole as int);
        if has_point {
            lemma_run_shift(text@, start as int, whole + 1, fraction as int);
            assert(s[w] == text@[whole as int]);
        } else if whole < n {
            assert(s[w] == text@[whole as int]);
        }
    }
    let whole_fits = whole > start && (whole == start + 1 || text.get_char(start) != '0');
    let fraction_fits = !has_point || fraction > whole + 1;
    let exponent_fits = if fraction == n {
        true
    } else {
        let c = text.get_char(fraction);
        proof {
            assert(s[f] == c);
            assert(s.skip(f)[0] == s[f]);
        }
        if c == 'e' || c == 'E' {
            let signed = fraction + 1 < n && (text.get_char(fraction + 1) == '+' || text.get_char(
                fraction + 1,
            ) == '-');
            let digits = if signed {
                fraction + 2
            } else {
                fraction + 1
            };
            let end = digits_end(text, n, digits);
            proof {
                if fraction + 1 < n {
                    assert(s[f + 1] == text@[fraction + 1]);
                }
                lemma_run_shift(text@, start as int, digits as int, end as int);
                lemma_exponent(s, f, digits - start, end - start);
            }
            digits < end && end == n
        } else {
            false
        }
    };
    assert(exponent_fits == (f == s.len() || is_exponent(s.skip(f))));
    let number = whole_fits && fraction_fits && exponent_fits;
    proof {
        if whole > start {
            assert(s[0] == text@[start as int]);
        }
        if number {
            assert(s.take(w) =~= s.subrange(0, w));
            lemma_digits_of_run(s, 0, w, w);
            if has_point {
                lemma_digits_of_run(s, w + 1, f, f);
            }
            assert(splits_as_number(s, w, f));
        } else {
            assert forall|a: int, b: int| !#[trigger] splits_as_number(s, a, b) by {
                if splits_as_number(s, a, b) {
                    lemma_split_is_forced(s, a, b, w, f);
                }
            }
        }
    }
    number
}

} // verus!
