//! Reading version numbers out of text: the `major.minor` comparison and the
//! first word that starts with a digit.
use vstd::prelude::*;
use crate::text::{is_whitespace, is_ws};

verus! {

/// `c` is an ASCII decimal digit.
pub open spec fn is_digit(c: char) -> bool {
    '0' <= c <= '9'
}

/// The value of a digit character.
pub open spec fn digit_value(c: char) -> int {
    (c as u32) - ('0' as u32)
}

/// Every character of `s` is a decimal digit.
pub open spec fn all_digits(s: Seq<char>) -> bool {
    forall|i: int| 0 <= i < s.len() ==> #[trigger] is_digit(s[i])
}

/// The number written by the digits `s` (zero for no digits).
pub open spec fn digits_value(s: Seq<char>) -> int
    decreases s.len(),
{
    if s.len() == 0 {
        0
    } else {
        digits_value(s.drop_last()) * 10 + digit_value(s.last())
    }
}

/// `s` without a leading `+`.
pub open spec fn unsigned_part(s: Seq<char>) -> Seq<char> {
    if s.len() > 0 && s[0] == '+' {
        s.drop_first()
    } else {
        s
    }
}

/// What `str::parse::<u32>` gives: an optional `+`, then one or more decimal
/// digits whose value fits in a `u32`; anything else is an error.
pub open spec fn parse_u32(s: Seq<char>) -> Option<u32> {
    let d = unsigned_part(s);
    if d.len() > 0 && all_digits(d) && digits_value(d) <= u32::MAX {
        Some(digits_value(d) as u32)
    } else {
        None
    }
}

proof fn lemma_digits_value_grows(s: Seq<char>, i: int)
    requires
        0 <= i <= s.len(),
        all_digits(s),
    ensures
        digits_value(s.subrange(0, i)) <= digits_value(s),
        0 <= digits_value(s.subrange(0, i)),
    decreases s.len() - i,
{
    if i < s.len() {
        lemma_digits_value_grows(s, i + 1);
        assert(s.subrange(0, i + 1).drop_last() =~= s.subrange(0, i));
        assert(is_digit(s[i]));
    } else {
        assert(s.subrange(0, i) =~= s);
        lemma_digits_value_nonneg(s);
    }
}

proof fn lemma_digits_value_nonneg(s: Seq<char>)
    requires
        all_digits(s),
    ensures
        0 <= digits_value(s),
    decreases s.len(),
{
    if s.len() > 0 {
        assert(is_digit(s.last()));
        lemma_digits_value_nonneg(s.drop_last());
    }
}

/// Parses `s[from..to]` as `str::parse::<u32>` does.
fn parse_u32_range(s: &Vec<char>, from: usize, to: usize) -> (r: Option<u32>)
    requires
        from <= to <= s@.len(),
    ensures
        r == parse_u32(s@.subrange(from as int, to as int)),
{
    let ghost whole = s@.subrange(from as int, to as int);
    let mut start = from;
    if from < to && s[from] == '+' {
        start = from + 1;
    }
    let ghost d = s@.subrange(start as int, to as int);
    assert(d =~= unsigned_part(whole));
    if start == to {
        return None;
    }
    let mut acc: u64 = 0;
    let mut i = start;
    while i < to
        invariant
            start <= i <= to <= s@.len(),
            d == s@.subrange(start as int, to as int),
            whole == s@.subrange(from as int, to as int),
            d == unsigned_part(whole),
            all_digits(s@.subrange(start as int, i as int)),
            acc == digits_value(s@.subrange(start as int, i as int)),
            acc <= u32::MAX,
        decreases to - i,
    {
        let c = s[i];
        if !('0' <= c && c <= '9') {
            assert(!is_digit(d[i - start]));
            assert(!all_digits(d));
            assert(parse_u32(whole) is None);
            return None;
        }
        proof {
            assert(s@.subrange(start as int, i + 1).drop_last() =~= s@.subrange(
                start as int,
                i as int,
            ));
        }
        acc = acc * 10 + ((c as u32) - ('0' as u32)) as u64;
        i = i + 1;
        assert(acc == digits_value(s@.subrange(start as int, i as int)));
        assert(all_digits(s@.subrange(start as int, i as int)));
        if acc > 0xffff_ffff {
            proof {
                assert(d.subrange(0, i - start) =~= s@.subrange(start as int, i as int));
                if all_digits(d) {
                    lemma_digits_value_grows(d, i - start);
                }
                assert(parse_u32(whole) is None);
            }
            return None;
        }
    }
    assert(s@.subrange(start as int, i as int) =~= d);
    Some(acc as u32)
}

/// The pieces of `s` between the dots, as `str::split('.')` gives them.
pub open spec fn first_dot(s: Seq<char>) -> Option<int> {
    if exists|i: int| 0 <= i < s.len() && s[i] == '.' {
        Some(choose|i: int| 0 <= i < s.len() && s[i] == '.' && forall|j: int| 0 <= j < i ==> s[j] != '.')
    } else {
        None
    }
}

/// The version in `ver` is at least `major.minor`: the text has a dot; the
/// piece before the first dot and the piece after it (up to the next dot)
/// are read as numbers, zero where one does not parse; and the pair is
/// compared in order, major first.
pub open spec fn version_ge(ver: Seq<char>, major: u32, minor: u32) -> bool {
    match first_dot(ver) {
        None => false,
        Some(p) => {
            let rest = ver.subrange(p + 1, ver.len() as int);
            let q = match first_dot(rest) {
                Some(q) => q,
                None => rest.len() as int,
            };
            let v_major = match parse_u32(ver.subrange(0, p)) {
                Some(v) => v,
                None => 0,
            };
            let v_minor = match parse_u32(rest.subrange(0, q)) {
                Some(v) => v,
                None => 0,
            };
            v_major > major || (v_major == major && v_minor >= minor)
        },
    }
}

fn find_dot(s: &Vec<char>, from: usize) -> (r: usize)
    requires
        from <= s@.len(),
    ensures
        from <= r <= s@.len(),
        r < s@.len() ==> s@[r as int] == '.',
        forall|j: int| from <= j < r ==> s@[j] != '.',
{
    let mut i = from;
    while i < s.len() && s[i] != '.'
        invariant
            from <= i <= s@.len(),
            forall|j: int| from <= j < i ==> s@[j] != '.',
        decreases s@.len() - i,
    {
        i = i + 1;
    }
    i
}

/// The characters of a text.
pub fn chars_of(s: &str) -> (r: Vec<char>)
    ensures
        r@ == s@,
{
    let n = s.unicode_len();
    let mut r: Vec<char> = Vec::new();
    let mut i: usize = 0;
    while i < n
        invariant
            n == s@.len(),
            i <= n,
            r@ == s@.subrange(0, i as int),
        decreases n - i,
    {
        r.push(s.get_char(i));
        i = i + 1;
        assert(r@ =~= s@.subrange(0, i as int));
    }
    assert(s@.subrange(0, n as int) =~= s@);
    r
}

/// Whether the version in `ver` is at least `major.minor`.
pub fn parse_version_ge(ver: &str, major: u32, minor: u32) -> (r: bool)
    ensures
        r == version_ge(ver@, major, minor),
{
    let s = chars_of(ver);
    let n = s.len();
    let p = find_dot(&s, 0);
    if p == n {
        assert(first_dot(ver@) is None);
        return false;
    }
    let q = find_dot(&s, p + 1);
    proof {
        assert(first_dot(ver@) == Some(p as int));
        let rest = ver@.subrange(p + 1, n as int);
        if q < n {
            assert(rest[q - p - 1] == '.');
            assert(first_dot(rest) == Some(q - p - 1));
        } else {
            assert(first_dot(rest) is None);
        }
        assert(rest.subrange(0, q - p - 1) =~= ver@.subrange(p + 1, q as int));
    }
    let v_major = match parse_u32_range(&s, 0, p) {
        Some(v) => v,
        None => 0,
    };
    let v_minor = match parse_u32_range(&s, p + 1, q) {
        Some(v) => v,
        None => 0,
    };
    v_major > major || (v_major == major && v_minor >= minor)
}

/// `s` from position `i`, up to the next whitespace.
pub open spec fn word_end(s: Seq<char>, i: int) -> int
    decreases s.len() - i,
{
    if i >= s.len() || is_ws(s[i]) {
        i
    } else {
        word_end(s, i + 1)
    }
}

/// The first whitespace-separated word of `s`, from position `i` on, whose
/// first character is an ASCII digit.
pub open spec fn digit_word_from(s: Seq<char>, i: int) -> Option<Seq<char>>
    decreases s.len() - i,
{
    if i < 0 || i >= s.len() {
        None
    } else if is_ws(s[i]) {
        digit_word_from(s, i + 1)
    } else {
        let e = word_end(s, i);
        if is_digit(s[i]) {
            Some(s.subrange(i, e))
        } else if e > i {
            proof {
                lemma_word_end_bounds(s, i);
            }
            digit_word_from(s, e)
        } else {
            None
        }
    }
}

/// A word runs from its start to the next whitespace or the end of the text.
pub proof fn lemma_word_end_bounds(s: Seq<char>, i: int)
    requires
        0 <= i <= s.len(),
    ensures
        i <= word_end(s, i) <= s.len(),
        forall|k: int| i <= k < word_end(s, i) ==> !is_ws(s[k]),
        word_end(s, i) < s.len() ==> is_ws(s[word_end(s, i)]),
    decreases s.len() - i,
{
    if i < s.len() && !is_ws(s[i]) {
        lemma_word_end_bounds(s, i + 1);
    }
}

/// The first whitespace-separated word of `s` that starts with an ASCII
/// digit, as `split_whitespace().find(..)` gives it.
pub fn first_digit_word(s: &str) -> (r: Option<String>)
    ensures
        match r {
            Some(w) => digit_word_from(s@, 0) == Some(w@),
            None => digit_word_from(s@, 0) is None,
        },
{
    let cs = chars_of(s);
    let n = cs.len();
    let mut i: usize = 0;
    while i < n
        invariant
            n == s@.len(),
            cs@ == s@,
            i <= n,
            digit_word_from(s@, 0) == digit_word_from(s@, i as int),
        decreases n - i,
    {
        if is_whitespace(cs[i]) {
            i = i + 1;
        } else {
            let mut e = i;
            while e < n && !is_whitespace(cs[e])
                invariant
                    n == s@.len(),
                    cs@ == s@,
                    i <= e <= n,
                    word_end(s@, i as int) == word_end(s@, e as int),
                decreases n - e,
            {
                e = e + 1;
            }
            if '0' <= cs[i] && cs[i] <= '9' {
                let w = s.substring_char(i, e);
                let mut out = String::new();
                out.append(w);
                return Some(out);
            }
            i = e;
        }
    }
    None
}

} // verus!
