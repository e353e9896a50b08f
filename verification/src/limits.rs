//! Resource-limit fields of a problem's front matter arrive either as
//! numbers or as text with a unit: `1000ms`, `1000 ms`, `1s`, `512MB`,
//! `512 mb`. These parsers normalise such text — ASCII case-folded and
//! trimmed, unit markers and spaces removed — and read the remaining
//! digits; a time given in seconds is converted to milliseconds.

use vstd::prelude::*;

use crate::timestamp::{digit_val, is_digit};

verus! {

/// ASCII whitespace, as trimmed from a limit field.
pub open spec fn is_space(c: char) -> bool {
    c == ' ' || c == '\t' || c == '\n' || c == '\r'
}

/// Number of consecutive spaces of `s` starting at position `i`.
pub open spec fn space_run(s: Seq<char>, i: int) -> int
    decreases s.len() - i,
{
    if 0 <= i < s.len() && is_space(s[i]) {
        1 + space_run(s, i + 1)
    } else {
        0
    }
}

/// Number of trailing spaces of `s`.
pub open spec fn trailing_spaces(s: Seq<char>) -> int
    decreases s.len(),
{
    if s.len() > 0 && is_space(s.last()) {
        1 + trailing_spaces(s.drop_last())
    } else {
        0
    }
}

/// `s` without leading and trailing ASCII whitespace.
pub open spec fn spec_trim(s: Seq<char>) -> Seq<char> {
    if space_run(s, 0) == s.len() {
        Seq::empty()
    } else {
        s.subrange(space_run(s, 0), s.len() - trailing_spaces(s))
    }
}

/// `c` folded to ASCII lower case.
pub open spec fn lower_char(c: char) -> char {
    if 'A' <= c && c <= 'Z' {
        ((c as u32) + 32) as char
    } else {
        c
    }
}

/// `c` folded to ASCII upper case.
pub open spec fn upper_char(c: char) -> char {
    if 'a' <= c && c <= 'z' {
        ((c as u32) - 32) as char
    } else {
        c
    }
}

/// `s` folded to ASCII lower case, character by character.
pub open spec fn spec_lower(s: Seq<char>) -> Seq<char> {
    Seq::new(s.len(), |i: int| lower_char(s[i]))
}

/// `s` folded to ASCII upper case, character by character.
pub open spec fn spec_upper(s: Seq<char>) -> Seq<char> {
    Seq::new(s.len(), |i: int| upper_char(s[i]))
}

/// `s` with every occurrence of the two-character unit marker `ab` removed,
/// scanning left to right without overlap.
pub open spec fn spec_remove_pair(s: Seq<char>, a: char, b: char) -> Seq<char>
    decreases s.len(),
{
    if s.len() < 2 {
        s
    } else if s[0] == a && s[1] == b {
        spec_remove_pair(s.skip(2), a, b)
    } else {
        seq![s[0]] + spec_remove_pair(s.drop_first(), a, b)
    }
}

/// `s` with every occurrence of `c` removed.
pub open spec fn spec_remove_char(s: Seq<char>, c: char) -> Seq<char>
    decreases s.len(),
{
    if s.len() == 0 {
        Seq::empty()
    } else if s[0] == c {
        spec_remove_char(s.drop_first(), c)
    } else {
        seq![s[0]] + spec_remove_char(s.drop_first(), c)
    }
}

/// `s` without its trailing run of `c`.
pub open spec fn spec_trim_end_char(s: Seq<char>, c: char) -> Seq<char>
    decreases s.len(),
{
    if s.len() > 0 && s.last() == c {
        spec_trim_end_char(s.drop_last(), c)
    } else {
        s
    }
}

/// `s` ends with `c`.
pub open spec fn ends_with_char(s: Seq<char>, c: char) -> bool {
    s.len() >= 1 && s.last() == c
}

/// `s` ends with the two characters `a`, `b`.
pub open spec fn ends_with_pair(s: Seq<char>, a: char, b: char) -> bool {
    s.len() >= 2 && s[s.len() - 2] == a && s.last() == b
}

/// The number the digit sequence `s` denotes, most significant digit first.
pub open spec fn digits_val(s: Seq<char>) -> int
    decreases s.len(),
{
    if s.len() == 0 {
        0
    } else {
        digits_val(s.drop_last()) * 10 + digit_val(s.last())
    }
}

/// The number `s` denotes when it is one or more decimal digits and the
/// value fits the type; nothing otherwise.
pub open spec fn spec_parse_u32(s: Seq<char>) -> Option<int> {
    if s.len() > 0 && (forall|i: int| 0 <= i < s.len() ==> is_digit(s[i])) && digits_val(s)
        <= u32::MAX {
        Some(digits_val(s))
    } else {
        None
    }
}

/// A time limit's normalised text: trimmed, lower-cased, `ms` markers and
/// spaces removed.
pub open spec fn time_limit_normal(s: Seq<char>) -> Seq<char> {
    spec_remove_char(spec_remove_pair(spec_lower(spec_trim(s)), 'm', 's'), ' ')
}

/// The time limit in milliseconds that text denotes: a trailing `s` (not
/// part of a reformed `ms`) marks seconds, converted by a factor of one
/// thousand; otherwise the number is read as milliseconds already. Nothing
/// when no number remains or the milliseconds overflow the type.
pub open spec fn spec_parse_time_limit(s: Seq<char>) -> Option<int> {
    let n = time_limit_normal(s);
    if ends_with_char(n, 's') && !ends_with_pair(n, 'm', 's') {
        match spec_parse_u32(spec_trim_end_char(n, 's')) {
            Some(v) => if v * 1000 <= u32::MAX {
                Some(v * 1000)
            } else {
                None
            },
            None => None,
        }
    } else {
        spec_parse_u32(n)
    }
}

/// A memory limit's normalised text: trimmed, upper-cased, `MB` markers and
/// spaces removed.
pub open spec fn memory_limit_normal(s: Seq<char>) -> Seq<char> {
    spec_remove_char(spec_remove_pair(spec_upper(spec_trim(s)), 'M', 'B'), ' ')
}

/// The memory limit in megabytes that text denotes; nothing when no number
/// remains.
pub open spec fn spec_parse_memory_limit(s: Seq<char>) -> Option<int> {
    spec_parse_u32(memory_limit_normal(s))
}

fn chars_of(s: &str) -> (r: Vec<char>)
    ensures
        r@ == s@,
{
    let n = s.unicode_len();
    let mut r: Vec<char> = Vec::new();
    let mut i: usize = 0;
    while i < n
        invariant
            n == s@.len(),
            i <= n,
            r@ == s@.take(i as int),
        decreases n - i,
    {
        r.push(s.get_char(i));
        proof {
            assert(s@.take(i + 1 as int) =~= s@.take(i as int).push(s@[i as int]));
        }
        i += 1;
    }
    proof {
        assert(s@.take(n as int) =~= s@);
    }
    r
}

fn is_space_exec(c: char) -> (r: bool)
    ensures
        r == is_space(c),
{
    c == ' ' || c == '\t' || c == '\n' || c == '\r'
}

proof fn lemma_space_run(s: Seq<char>, i: int, j: int)
    requires
        0 <= i <= j <= s.len(),
        forall|k: int| i <= k < j ==> is_space(s[k]),
        j == s.len() || !is_space(s[j]),
    ensures
        space_run(s, i) == j - i,
    decreases j - i,
{
    if i < j {
        lemma_space_run(s, i + 1, j);
    }
}

proof fn lemma_trailing_spaces(s: Seq<char>, j: int)
    requires
        0 <= j <= s.len(),
        forall|k: int| j <= k < s.len() ==> is_space(s[k]),
        j == 0 || !is_space(s[j - 1]),
    ensures
        trailing_spaces(s) == s.len() - j,
    decreases s.len() - j,
{
    if j < s.len() {
        assert(s.drop_last() =~= s.take(s.len() - 1));
        lemma_trailing_spaces(s.drop_last(), j);
    }
}

fn trim_chars(v: &Vec<char>) -> (r: Vec<char>)
    ensures
        r@ == spec_trim(v@),
{
    let n = v.len();
    let mut lo: usize = 0;
    while lo < n && is_space_exec(v[lo])
        invariant
            n == v@.len(),
            lo <= n,
            forall|k: int| 0 <= k < lo ==> is_space(v@[k]),
        decreases n - lo,
    {
        lo += 1;
    }
    proof {
        lemma_space_run(v@, 0, lo as int);
    }
    if lo == n {
        let r: Vec<char> = Vec::new();
        return r;
    }
    let mut hi: usize = n;
    while hi > lo && is_space_exec(v[hi - 1])
        invariant
            n == v@.len(),
            lo <= hi <= n,
            lo < n,
            !is_space(v@[lo as int]),
            forall|k: int| hi <= k < n ==> is_space(v@[k]),
        decreases hi,
    {
        hi -= 1;
    }
    // The scan stops at the latest at the non-space character at `lo`.
    proof {
        assert(!is_space(v@[hi - 1]) || hi == lo + 1 && !is_space(v@[lo as int]));
        lemma_trailing_spaces(v@, hi as int);
    }
    let mut r: Vec<char> = Vec::new();
    let mut i: usize = lo;
    while i < hi
        invariant
            n == v@.len(),
            lo <= i <= hi <= n,
            r@ == v@.subrange(lo as int, i as int),
        decreases hi - i,
    {
        proof {
            assert(v@.subrange(lo as int, i + 1 as int) =~= v@.subrange(lo as int, i as int).push(
                v@[i as int],
            ));
        }
        r.push(v[i]);
        i += 1;
    }
    r
}

fn lower_chars(v: &Vec<char>) -> (r: Vec<char>)
    ensures
        r@ == spec_lower(v@),
{
    let n = v.len();
    let mut r: Vec<char> = Vec::new();
    let mut i: usize = 0;
    while i < n
        invariant
            n == v@.len(),
            i <= n,
            r@.len() == i,
            forall|j: int| 0 <= j < i ==> r@[j] == lower_char(v@[j]),
        decreases n - i,
    {
        let c = v[i];
        if 'A' <= c && c <= 'Z' {
            r.push((((c as u32) + 32) as u8) as char);
        } else {
            r.push(c);
        }
        i += 1;
    }
    proof {
        assert(r@ =~= spec_lower(v@));
    }
    r
}

fn upper_chars(v: &Vec<char>) -> (r: Vec<char>)
    ensures
        r@ == spec_upper(v@),
{
    let n = v.len();
    let mut r: Vec<char> = Vec::new();
    let mut i: usize = 0;
    while i < n
        invariant
            n == v@.len(),
            i <= n,
            r@.len() == i,
            forall|j: int| 0 <= j < i ==> r@[j] == upper_char(v@[j]),
        decreases n - i,
    {
        let c = v[i];
        if 'a' <= c && c <= 'z' {
            r.push((((c as u32) - 32) as u8) as char);
        } else {
            r.push(c);
        }
        i += 1;
    }
    proof {
        assert(r@ =~= spec_upper(v@));
    }
    r
}

fn remove_pair(v: &Vec<char>, a: char, b: char) -> (r: Vec<char>)
    ensures
        r@ == spec_remove_pair(v@, a, b),
{
    let n = v.len();
    let ghost s = v@;
    let mut r: Vec<char> = Vec::new();
    let mut i: usize = 0;
    proof {
        assert(s.skip(0) =~= s);
    }
    while i < n
        invariant
            n == s.len(),
            s == v@,
            i <= n,
            spec_remove_pair(s, a, b) == r@ + spec_remove_pair(s.skip(i as int), a, b),
        decreases n - i,
    {
        proof {
            assert(s.skip(i as int)[0] == s[i as int]);
        }
        if i + 1 < n && v[i] == a && v[i + 1] == b {
            proof {
                assert(s.skip(i as int)[1] == s[i as int + 1]);
                assert(s.skip(i as int).skip(2) =~= s.skip(i as int + 2));
            }
            i += 2;
        } else {
            proof {
                assert(s.skip(i as int).drop_first() =~= s.skip(i as int + 1));
                if i + 1 < n {
                    assert(s.skip(i as int)[1] == s[i as int + 1]);
                } else {
                    assert(s.skip(i as int).len() == 1);
                }
                assert(spec_remove_pair(s.skip(i as int), a, b) == seq![s[i as int]]
                    + spec_remove_pair(s.skip(i as int + 1), a, b));
            }
            r.push(v[i]);
            i += 1;
        }
    }
    proof {
        assert(s.skip(n as int) =~= Seq::<char>::empty());
        assert(r@ =~= r@ + spec_remove_pair(s.skip(n as int), a, b));
    }
    r
}

fn remove_char(v: &Vec<char>, c: char) -> (r: Vec<char>)
    ensures
        r@ == spec_remove_char(v@, c),
{
    let n = v.len();
    let ghost s = v@;
    let mut r: Vec<char> = Vec::new();
    let mut i: usize = 0;
    proof {
        assert(s.skip(0) =~= s);
    }
    while i < n
        invariant
            n == s.len(),
            s == v@,
            i <= n,
            spec_remove_char(s, c) == r@ + spec_remove_char(s.skip(i as int), c),
        decreases n - i,
    {
        proof {
            assert(s.skip(i as int)[0] == s[i as int]);
            assert(s.skip(i as int).drop_first() =~= s.skip(i as int + 1));
        }
        if v[i] != c {
            r.push(v[i]);
        }
        i += 1;
    }
    proof {
        assert(s.skip(n as int) =~= Seq::<char>::empty());
        assert(r@ =~= r@ + spec_remove_char(s.skip(n as int), c));
    }
    r
}

proof fn lemma_trim_end_char(s: Seq<char>, c: char, j: int)
    requires
        0 <= j <= s.len(),
        forall|k: int| j <= k < s.len() ==> s[k] == c,
        j == 0 || s[j - 1] != c,
    ensures
        spec_trim_end_char(s, c) == s.take(j),
    decreases s.len() - j,
{
    if j < s.len() {
        assert(s.drop_last() =~= s.take(s.len() - 1));
        lemma_trim_end_char(s.drop_last(), c, j);
        assert(s.drop_last().take(j) =~= s.take(j));
    } else {
        assert(s.take(j) =~= s);
    }
}

fn trim_end_char(v: &Vec<char>, c: char) -> (r: Vec<char>)
    ensures
        r@ == spec_trim_end_char(v@, c),
{
    let n = v.len();
    let mut hi: usize = n;
    while hi > 0 && v[hi - 1] == c
        invariant
            n == v@.len(),
            hi <= n,
            forall|k: int| hi <= k < n ==> v@[k] == c,
        decreases hi,
    {
        hi -= 1;
    }
    proof {
        lemma_trim_end_char(v@, c, hi as int);
    }
    let mut r: Vec<char> = Vec::new();
    let mut i: usize = 0;
    while i < hi
        invariant
            n == v@.len(),
            i <= hi <= n,
            r@ == v@.take(i as int),
        decreases hi - i,
    {
        proof {
            assert(v@.take(i + 1 as int) =~= v@.take(i as int).push(v@[i as int]));
        }
        r.push(v[i]);
        i += 1;
    }
    r
}

proof fn lemma_digits_val_monotone(s: Seq<char>, i: int)
    requires
        0 <= i <= s.len(),
        forall|k: int| 0 <= k < s.len() ==> is_digit(s[k]),
    ensures
        digits_val(s.take(i)) <= digits_val(s),
        digits_val(s) >= 0,
    decreases s.len() - i,
{
    if i == s.len() {
        assert(s.take(i) =~= s);
        lemma_digits_val_nonneg(s);
    } else {
        assert(s.take(i + 1).drop_last() =~= s.take(i));
        assert(s.take(i + 1).last() == s[i]);
        lemma_digits_val_nonneg(s.take(i));
        lemma_digits_val_monotone(s, i + 1);
    }
}

proof fn lemma_digits_val_nonneg(s: Seq<char>)
    requires
        forall|k: int| 0 <= k < s.len() ==> is_digit(s[k]),
    ensures
        digits_val(s) >= 0,
    decreases s.len(),
{
    if s.len() > 0 {
        assert(s.drop_last() =~= s.take(s.len() - 1));
        lemma_digits_val_nonneg(s.drop_last());
    }
}

fn parse_u32_chars(v: &Vec<char>) -> (r: Option<u32>)
    ensures
        match r {
            Some(x) => spec_parse_u32(v@) == Some(x as int),
            None => spec_parse_u32(v@) is None,
        },
{
    let n = v.len();
    if n == 0 {
        return None;
    }
    let ghost s = v@;
    let mut acc: u64 = 0;
    let mut i: usize = 0;
    proof {
        assert(s.take(0) =~= Seq::<char>::empty());
    }
    while i < n
        invariant
            n == s.len(),
            s == v@,
            i <= n,
            forall|k: int| 0 <= k < i ==> is_digit(s[k]),
            acc == digits_val(s.take(i as int)),
            acc <= u32::MAX,
        decreases n - i,
    {
        let c = v[i];
        let u = c as u32;
        if !(48 <= u && u <= 57) {
            return None;
        }
        proof {
            assert(s.take(i + 1 as int).drop_last() =~= s.take(i as int));
            assert(s.take(i + 1 as int).last() == s[i as int]);
        }
        let d = (u - 48) as u64;
        acc = acc * 10 + d;
        i += 1;
        if acc > 0xFFFF_FFFF {
            proof {
                if forall|k: int| 0 <= k < s.len() ==> is_digit(s[k]) {
                    lemma_digits_val_monotone(s, i as int);
                }
            }
            return None;
        }
    }
    proof {
        assert(s.take(n as int) =~= s);
    }
    Some(acc as u32)
}

/// Reads a textual time limit as milliseconds: `1000`, `1000ms` and
/// `1000 MS` all mean a thousand milliseconds, `1s` means one second.
pub fn parse_time_limit(s: &str) -> (r: Option<u32>)
    ensures
        match r {
            Some(x) => spec_parse_time_limit(s@) == Some(x as int),
            None => spec_parse_time_limit(s@) is None,
        },
{
    let chars = chars_of(s);
    let n = remove_char(&remove_pair(&lower_chars(&trim_chars(&chars)), 'm', 's'), ' ');
    let len = n.len();
    let seconds = len >= 1 && n[len - 1] == 's' && !(len >= 2 && n[len - 2] == 'm');
    if seconds {
        let digits = trim_end_char(&n, 's');
        match parse_u32_chars(&digits) {
            Some(v) => {
                if v <= 0xFFFF_FFFFu32 / 1000 {
                    Some(v * 1000)
                } else {
                    None
                }
            },
            None => None,
        }
    } else {
        parse_u32_chars(&n)
    }
}

/// Reads a textual memory limit as megabytes: `512`, `512MB` and `512 mb`
/// all mean five hundred twelve megabytes.
pub fn parse_memory_limit(s: &str) -> (r: Option<u32>)
    ensures
        match r {
            Some(x) => spec_parse_memory_limit(s@) == Some(x as int),
            None => spec_parse_memory_limit(s@) is None,
        },
{
    let chars = chars_of(s);
    let n = remove_char(&remove_pair(&upper_chars(&trim_chars(&chars)), 'M', 'B'), ' ');
    parse_u32_chars(&n)
}

} // verus!
