//! Decimal integers and separator-delimited segments, read from character
//! sequences with the rules of `str::parse` and `str::split`.
use vstd::prelude::*;

verus! {

pub open spec fn is_digit(c: char) -> bool {
    '0' <= c && c <= '9'
}

pub open spec fn digit_value(c: char) -> int {
    c as int - 48
}

pub open spec fn all_digits(s: Seq<char>) -> bool {
    forall|i: int| 0 <= i < s.len() ==> is_digit(#[trigger] s[i])
}

/// The number written by a sequence of decimal digits (0 for the empty sequence).
pub open spec fn digits_value(s: Seq<char>) -> int
    decreases s.len(),
{
    if s.len() == 0 {
        0
    } else {
        digits_value(s.drop_last()) * 10 + digit_value(s.last())
    }
}

/// The magnitude part of an integer literal and whether it carries a minus sign.
/// A sign alone leaves an empty magnitude, which no parse accepts.
pub open spec fn unsigned_body(s: Seq<char>) -> Seq<char> {
    if s.len() > 0 && s[0] == '+' {
        s.drop_first()
    } else {
        s
    }
}

/// What `str::parse::<u32>` accepts, and the value it yields.
pub open spec fn parse_u32_spec(s: Seq<char>) -> Option<u32> {
    let d = unsigned_body(s);
    if d.len() > 0 && all_digits(d) && digits_value(d) <= u32::MAX {
        Some(digits_value(d) as u32)
    } else {
        None
    }
}

/// What `str::parse::<i64>` accepts, and the value it yields.
pub open spec fn parse_i64_spec(s: Seq<char>) -> Option<i64> {
    if s.len() > 0 && s[0] == '-' {
        let d = s.drop_first();
        if d.len() > 0 && all_digits(d) && -digits_value(d) >= i64::MIN {
            Some((-digits_value(d)) as i64)
        } else {
            None
        }
    } else {
        let d = unsigned_body(s);
        if d.len() > 0 && all_digits(d) && digits_value(d) <= i64::MAX {
            Some(digits_value(d) as i64)
        } else {
            None
        }
    }
}

/// Index of the first occurrence of `c` in `s`, or -1.
pub open spec fn first_index_of(s: Seq<char>, c: char) -> int
    decreases s.len(),
{
    if s.len() == 0 {
        -1
    } else if s[0] == c {
        0
    } else {
        let r = first_index_of(s.drop_first(), c);
        if r < 0 {
            -1
        } else {
            r + 1
        }
    }
}

/// The `n`-th item (from 0) that `s.split(c)` yields, if there is one.
pub open spec fn segment(s: Seq<char>, c: char, n: nat) -> Option<Seq<char>>
    decreases n,
{
    let i = first_index_of(s, c);
    if n == 0 {
        Some(
            if i < 0 {
                s
            } else {
                s.take(i)
            },
        )
    } else if i < 0 {
        None
    } else {
        segment(s.skip(i + 1), c, (n - 1) as nat)
    }
}

pub proof fn lemma_first_index_of(s: Seq<char>, c: char)
    ensures
        -1 <= first_index_of(s, c) < s.len(),
        first_index_of(s, c) >= 0 ==> s[first_index_of(s, c)] == c,
        forall|j: int|
            0 <= j < s.len() && (first_index_of(s, c) < 0 || j < first_index_of(s, c)) ==> s[j]
                != c,
    decreases s.len(),
{
    if s.len() > 0 && s[0] != c {
        lemma_first_index_of(s.drop_first(), c);
        assert forall|j: int|
            0 <= j < s.len() && (first_index_of(s, c) < 0 || j < first_index_of(s, c)) implies s[j]
            != c by {
            if j > 0 {
                assert(s[j] == s.drop_first()[j - 1]);
            }
        }
    }
}

/// The characteristic facts of `first_index_of`, read back from an index.
pub proof fn lemma_first_index_is(s: Seq<char>, c: char, i: int)
    requires
        -1 <= i < s.len(),
        i >= 0 ==> s[i] == c,
        forall|j: int| 0 <= j < s.len() && (i < 0 || j < i) ==> s[j] != c,
    ensures
        first_index_of(s, c) == i,
{
    lemma_first_index_of(s, c);
    let k = first_index_of(s, c);
    if k != i {
        if k >= 0 && (i < 0 || k < i) {
            assert(s[k] != c);
        } else {
            assert(s[i] != c);
        }
    }
}

pub proof fn lemma_digits_value_push(s: Seq<char>, c: char)
    ensures
        digits_value(s.push(c)) == digits_value(s) * 10 + digit_value(c),
{
    assert(s.push(c).drop_last() =~= s);
}

pub proof fn lemma_digits_value_grows(s: Seq<char>, i: int)
    requires
        0 <= i <= s.len(),
        all_digits(s),
    ensures
        digits_value(s) >= digits_value(s.take(i)),
        digits_value(s.take(i)) >= 0,
    decreases s.len(),
{
    if s.len() > 0 {
        if i == s.len() {
            assert(s.take(i) =~= s);
            lemma_digits_value_grows(s.drop_last(), s.len() - 1);
            assert(s.drop_last().take(s.len() - 1) =~= s.drop_last());
            assert(is_digit(s[s.len() - 1]));
        } else {
            lemma_digits_value_grows(s.drop_last(), i);
            assert(s.drop_last().take(i) =~= s.take(i));
            lemma_digits_value_grows(s.drop_last(), s.len() - 1);
            assert(s.drop_last().take(s.len() - 1) =~= s.drop_last());
            assert(is_digit(s[s.len() - 1]));
        }
    }
}

/// Reads the digits `chars[lo..hi]`; `None` when one of them is no digit, when there
/// are none, or when their value exceeds `limit`.
pub fn digits_at_most(chars: &Vec<char>, lo: usize, hi: usize, limit: u64) -> (r: Option<u64>)
    requires
        lo <= hi <= chars@.len(),
    ensures
        ({
            let d = chars@.subrange(lo as int, hi as int);
            match r {
                Some(v) => d.len() > 0 && all_digits(d) && digits_value(d) == v && v <= limit,
                None => !(d.len() > 0 && all_digits(d) && digits_value(d) <= limit),
            }
        }),
{
    let ghost d = chars@.subrange(lo as int, hi as int);
    if lo == hi {
        return None;
    }
    let mut acc: u64 = 0;
    let mut i = lo;
    assert(d.take(0) =~= Seq::<char>::empty());
    while i < hi
        invariant
            lo <= i <= hi <= chars@.len(),
            d == chars@.subrange(lo as int, hi as int),
            all_digits(d.take(i - lo)),
            acc == digits_value(d.take(i - lo)),
            acc <= limit,
        decreases hi - i,
    {
        let c = chars[i];
        if !('0' <= c && c <= '9') {
            assert(d[i - lo] == c);
            return None;
        }
        let dv = (c as u32 - 48) as u64;
        assert(d.take(i - lo + 1) =~= d.take(i - lo).push(c));
        proof {
            lemma_digits_value_push(d.take(i - lo), c);
        }
        if dv > limit || acc > (limit - dv) / 10 {
            // the prefix read so far already exceeds the limit
            proof {
                if dv <= limit {
                    assert(acc * 10 + dv > limit) by (nonlinear_arith)
                        requires
                            acc > (limit - dv) / 10,
                            dv <= limit,
                    ;
                }
                if all_digits(d) {
                    lemma_digits_value_grows(d, i - lo + 1);
                }
            }
            return None;
        }
        assert(acc * 10 + dv <= limit) by (nonlinear_arith)
            requires
                acc <= (limit - dv) / 10,
                dv <= limit,
        ;
        acc = acc * 10 + dv;
        i = i + 1;
    }
    assert(d.take(hi - lo) =~= d);
    Some(acc)
}

/// `str::parse::<u32>` on `chars[lo..hi]`.
pub fn parse_u32_at(chars: &Vec<char>, lo: usize, hi: usize) -> (r: Option<u32>)
    requires
        lo <= hi <= chars@.len(),
    ensures
        r == parse_u32_spec(chars@.subrange(lo as int, hi as int)),
{
    let start = if lo < hi && chars[lo] == '+' {
        lo + 1
    } else {
        lo
    };
    assert(unsigned_body(chars@.subrange(lo as int, hi as int)) =~= chars@.subrange(
        start as int,
        hi as int,
    ));
    match digits_at_most(chars, start, hi, 4294967295) {
        Some(v) => Some(v as u32),
        None => None,
    }
}

/// `str::parse::<i64>` on `chars[lo..hi]`.
pub fn parse_i64_at(chars: &Vec<char>, lo: usize, hi: usize) -> (r: Option<i64>)
    requires
        lo <= hi <= chars@.len(),
    ensures
        r == parse_i64_spec(chars@.subrange(lo as int, hi as int)),
{
    let ghost s = chars@.subrange(lo as int, hi as int);
    if lo < hi && chars[lo] == '-' {
        assert(s.drop_first() =~= chars@.subrange(lo + 1, hi as int));
        match digits_at_most(chars, lo + 1, hi, 9223372036854775808) {
            Some(v) => {
                if v == 9223372036854775808 {
                    Some(i64::MIN)
                } else {
                    Some(0 - (v as i64))
                }
            },
            None => None,
        }
    } else {
        let start = if lo < hi && chars[lo] == '+' {
            lo + 1
        } else {
            lo
        };
        assert(unsigned_body(s) =~= chars@.subrange(start as int, hi as int));
        match digits_at_most(chars, start, hi, 9223372036854775807) {
            Some(v) => Some(v as i64),
            None => None,
        }
    }
}

/// Index of the first `c` in `chars[lo..hi]`, as an offset from `lo`.
pub fn find_char(chars: &Vec<char>, lo: usize, hi: usize, c: char) -> (r: Option<usize>)
    requires
        lo <= hi <= chars@.len(),
    ensures
        ({
            let i = first_index_of(chars@.subrange(lo as int, hi as int), c);
            match r {
                Some(k) => i >= 0 && k == i && lo + k < hi && chars@[lo + k] == c,
                None => i < 0,
            }
        }),
{
    let ghost s = chars@.subrange(lo as int, hi as int);
    let mut i = lo;
    while i < hi
        invariant
            lo <= i <= hi <= chars@.len(),
            s == chars@.subrange(lo as int, hi as int),
            forall|j: int| 0 <= j < i - lo ==> s[j] != c,
        decreases hi - i,
    {
        if chars[i] == c {
            proof {
                lemma_first_index_is(s, c, i - lo);
            }
            return Some(i - lo);
        }
        i = i + 1;
    }
    proof {
        lemma_first_index_is(s, c, -1);
    }
    None
}

/// Bounds of the `n`-th item of `chars[lo..hi].split(c)`.
pub fn segment_at(chars: &Vec<char>, lo: usize, hi: usize, c: char, n: usize) -> (r: Option<
    (usize, usize),
>)
    requires
        lo <= hi <= chars@.len(),
    ensures
        match r {
            Some((a, b)) => lo <= a <= b <= hi && segment(
                chars@.subrange(lo as int, hi as int),
                c,
                n as nat,
            ) == Some(chars@.subrange(a as int, b as int)),
            None => segment(chars@.subrange(lo as int, hi as int), c, n as nat) is None,
        },
    decreases n,
{
    let found = find_char(chars, lo, hi, c);
    proof {
        lemma_first_index_of(chars@.subrange(lo as int, hi as int), c);
    }
    if n == 0 {
        match found {
            Some(k) => {
                assert(chars@.subrange(lo as int, hi as int).take(k as int) =~= chars@.subrange(
                    lo as int,
                    lo + k,
                ));
                Some((lo, lo + k))
            },
            None => Some((lo, hi)),
        }
    } else {
        match found {
            Some(k) => {
                proof {
                    lemma_first_index_of(chars@.subrange(lo as int, hi as int), c);
                }
                assert(chars@.subrange(lo as int, hi as int).skip(k + 1) =~= chars@.subrange(
                    lo + k + 1,
                    hi as int,
                ));
                segment_at(chars, lo + k + 1, hi, c, n - 1)
            },
            None => None,
        }
    }
}

} // verus!
