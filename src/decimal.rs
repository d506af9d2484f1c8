//! Reading an index written in base ten.
use vstd::prelude::*;
use vstd::string::*;

verus! {

pub open spec fn is_digit(c: char) -> bool {
    '0' <= c && c <= '9'
}

pub open spec fn digit_value(c: char) -> nat {
    (c as int - '0' as int) as nat
}

/// The value of a string of digits, most significant first (zero when empty).
pub open spec fn decimal_value(s: Seq<char>) -> nat
    decreases s.len(),
{
    if s.len() == 0 {
        0
    } else {
        decimal_value(s.drop_last()) * 10 + digit_value(s.last())
    }
}

/// The digits of an index: the text after one optional leading `+`.
pub open spec fn unsigned_digits(s: Seq<char>) -> Seq<char> {
    if s.len() > 0 && s[0] == '+' {
        s.drop_first()
    } else {
        s
    }
}

/// An index is an optional `+` followed by at least one ASCII digit, whose
/// value fits in a `usize`.
pub open spec fn is_index(s: Seq<char>) -> bool {
    let d = unsigned_digits(s);
    &&& d.len() > 0
    &&& forall|i: int| 0 <= i < d.len() ==> is_digit(#[trigger] d[i])
    &&& decimal_value(d) <= usize::MAX
}

pub open spec fn index_value(s: Seq<char>) -> nat {
    decimal_value(unsigned_digits(s))
}

/// Reads the characters `from..` of `s` as an index; `None` where they are
/// not one.
pub fn parse_index(s: &str, from: usize) -> (r: Option<usize>)
    requires
        from <= s@.len(),
    ensures
        match r {
            Some(v) => is_index(s@.subrange(from as int, s@.len() as int))
                && v as nat == index_value(s@.subrange(from as int, s@.len() as int)),
            None => !is_index(s@.subrange(from as int, s@.len() as int)),
        },
{
    let n = s.unicode_len();
    let ghost t = s@.subrange(from as int, n as int);
    let mut start = from;
    if start < n && s.get_char(start) == '+' {
        start = start + 1;
    }
    let ghost d = s@.subrange(start as int, n as int);
    assert(d =~= unsigned_digits(t));
    if start == n {
        return None;
    }
    let mut acc: usize = 0;
    let mut too_large = false;
    let mut j = start;
    while j < n
        invariant
            start <= j <= n,
            n == s@.len(),
            d == s@.subrange(start as int, n as int),
            d == unsigned_digits(t),
            t == s@.subrange(from as int, n as int),
            forall|k: int| start <= k < j ==> is_digit(#[trigger] s@[k]),
            !too_large ==> acc as nat == decimal_value(s@.subrange(start as int, j as int)),
            too_large ==> decimal_value(s@.subrange(start as int, j as int)) > usize::MAX,
        decreases n - j,
    {
        let c = s.get_char(j);
        if !('0' <= c && c <= '9') {
            assert(!is_digit(d[j - start]));
            return None;
        }
        let dv = (c as u32 - '0' as u32) as usize;
        let ghost before = decimal_value(s@.subrange(start as int, j as int));
        assert(s@.subrange(start as int, j + 1).drop_last() =~= s@.subrange(start as int, j as int));
        assert(decimal_value(s@.subrange(start as int, j + 1)) == before * 10 + dv);
        if !too_large {
            if acc > (usize::MAX - dv) / 10 {
                assert(acc * 10 + dv > usize::MAX) by (nonlinear_arith)
                    requires
                        acc > (usize::MAX - dv) / 10,
                        dv <= 9,
                ;
                too_large = true;
            } else {
                assert(acc * 10 + dv <= usize::MAX) by (nonlinear_arith)
                    requires
                        acc <= (usize::MAX - dv) / 10,
                        dv <= 9,
                ;
                acc = acc * 10 + dv;
            }
        }
        j = j + 1;
    }
    assert(s@.subrange(start as int, j as int) =~= d);
    if too_large {
        None
    } else {
        Some(acc)
    }
}

} // verus!
