//! Verified text utilities: substring search, string equality and decimal
//! rendering. The judging pipeline uses these to scan captured output for
//! verdict markers and to build workspace and test-case path components.

use vstd::prelude::*;

verus! {

/// `needle` occurs in `hay` starting at position `i`.
pub open spec fn contains_at(hay: Seq<char>, needle: Seq<char>, i: int) -> bool {
    0 <= i && i + needle.len() <= hay.len() && hay.subrange(i, i + needle.len() as int)
        == needle
}

/// `needle` occurs somewhere in `hay`.
pub open spec fn contains_seq(hay: Seq<char>, needle: Seq<char>) -> bool {
    exists|i: int| contains_at(hay, needle, i)
}

/// Substring test: does `hay` contain `needle`?
pub fn str_contains(hay: &str, needle: &str) -> (r: bool)
    ensures
        r == contains_seq(hay@, needle@),
{
    let hl = hay.unicode_len();
    let nl = needle.unicode_len();
    if nl > hl {
        assert(forall|i: int| !contains_at(hay@, needle@, i));
        return false;
    }
    let mut i: usize = 0;
    while i <= hl - nl
        invariant
            nl <= hl,
            hl == hay@.len(),
            nl == needle@.len(),
            i <= hl - nl + 1,
            forall|j: int| 0 <= j < i ==> !contains_at(hay@, needle@, j),
        decreases hl - nl - i + 1,
    {
        let mut k: usize = 0;
        while k < nl && hay.get_char(i + k) == needle.get_char(k)
            invariant
                nl <= hl,
                hl == hay@.len(),
                nl == needle@.len(),
                i + nl <= hl,
                k <= nl,
                forall|m: int| 0 <= m < k ==> hay@[i + m] == needle@[m],
            decreases nl - k,
        {
            k += 1;
        }
        if k == nl {
            proof {
                assert(hay@.subrange(i as int, i + nl as int) =~= needle@);
                assert(contains_at(hay@, needle@, i as int));
            }
            return true;
        }
        proof {
            assert(!contains_at(hay@, needle@, i as int)) by {
                if contains_at(hay@, needle@, i as int) {
                    assert(hay@.subrange(i as int, i + nl as int)[k as int] == needle@[k as int]);
                }
            }
        }
        i += 1;
    }
    assert(forall|j: int| 0 <= j < i ==> !contains_at(hay@, needle@, j));
    assert(forall|j: int| j > hl - nl ==> !contains_at(hay@, needle@, j));
    false
}

/// A copy of a string with the same characters.
pub fn clone_string(s: &String) -> (r: String)
    ensures
        r@ == s@,
{
    String::from_str(s.as_str())
}

/// A copy of an optional string with the same characters.
pub fn clone_opt_string(s: &Option<String>) -> (r: Option<String>)
    ensures
        match s {
            Some(v) => r matches Some(w) && w@ == v@,
            None => r is None,
        },
{
    match s {
        Some(v) => Some(clone_string(v)),
        None => None,
    }
}

/// String equality at the level of character sequences.
pub fn str_eq(a: &str, b: &str) -> (r: bool)
    ensures
        r == (a@ == b@),
{
    let al = a.unicode_len();
    let bl = b.unicode_len();
    if al != bl {
        return false;
    }
    let mut i: usize = 0;
    while i < al
        invariant
            al == a@.len(),
            al == b@.len(),
            i <= al,
            forall|j: int| 0 <= j < i ==> a@[j] == b@[j],
        decreases al - i,
    {
        if a.get_char(i) != b.get_char(i) {
            return false;
        }
        i += 1;
    }
    proof {
        assert(a@ =~= b@);
    }
    true
}

/// Code-point order on character sequences: `a` sorts at or before `b`.
pub open spec fn lex_leq(a: Seq<char>, b: Seq<char>) -> bool
    decreases a.len(),
{
    if a.len() == 0 {
        true
    } else if b.len() == 0 {
        false
    } else if (a[0] as u32) < (b[0] as u32) {
        true
    } else if (a[0] as u32) > (b[0] as u32) {
        false
    } else {
        lex_leq(a.drop_first(), b.drop_first())
    }
}

/// Code-point order is total: of any two sequences, one sorts at or before
/// the other.
pub proof fn lemma_lex_total(a: Seq<char>, b: Seq<char>)
    ensures
        lex_leq(a, b) || lex_leq(b, a),
    decreases a.len(),
{
    if a.len() > 0 && b.len() > 0 && (a[0] as u32) == (b[0] as u32) {
        lemma_lex_total(a.drop_first(), b.drop_first());
    }
}

/// Code-point order is transitive.
pub proof fn lemma_lex_trans(a: Seq<char>, b: Seq<char>, c: Seq<char>)
    requires
        lex_leq(a, b),
        lex_leq(b, c),
    ensures
        lex_leq(a, c),
    decreases a.len(),
{
    if a.len() > 0 && b.len() > 0 && c.len() > 0 && (a[0] as u32) == (b[0] as u32) && (b[0]
        as u32) == (c[0] as u32) {
        lemma_lex_trans(a.drop_first(), b.drop_first(), c.drop_first());
    }
}

proof fn lemma_lex_skip(a: Seq<char>, b: Seq<char>, i: int)
    requires
        0 <= i <= a.len(),
        i <= b.len(),
        forall|j: int| 0 <= j < i ==> (a[j] as u32) == (b[j] as u32),
    ensures
        lex_leq(a, b) == lex_leq(a.skip(i), b.skip(i)),
    decreases i,
{
    if i > 0 {
        assert(a.drop_first().skip(i - 1) =~= a.skip(i));
        assert(b.drop_first().skip(i - 1) =~= b.skip(i));
        lemma_lex_skip(a.drop_first(), b.drop_first(), i - 1);
    } else {
        assert(a.skip(0) =~= a);
        assert(b.skip(0) =~= b);
    }
}

/// Compares two strings in code-point order.
pub fn str_lex_leq(a: &str, b: &str) -> (r: bool)
    ensures
        r == lex_leq(a@, b@),
{
    let al = a.unicode_len();
    let bl = b.unicode_len();
    let mut i: usize = 0;
    while i < al && i < bl
        invariant
            al == a@.len(),
            bl == b@.len(),
            i <= al,
            i <= bl,
            forall|j: int| 0 <= j < i ==> (a@[j] as u32) == (b@[j] as u32),
        decreases al - i,
    {
        let ca = a.get_char(i) as u32;
        let cb = b.get_char(i) as u32;
        if ca != cb {
            proof {
                lemma_lex_skip(a@, b@, i as int);
            }
            return ca < cb;
        }
        i += 1;
    }
    proof {
        lemma_lex_skip(a@, b@, i as int);
    }
    al <= bl
}

/// The decimal digits of `n`, most significant first, with no leading zero
/// except for `n == 0` itself.
pub open spec fn spec_decimal(n: nat) -> Seq<char>
    decreases n,
{
    if n < 10 {
        seq![digit_char(n)]
    } else {
        spec_decimal(n / 10) + seq![digit_char(n % 10)]
    }
}

/// The character for a single decimal digit.
pub open spec fn digit_char(d: nat) -> char {
    if d == 0 {
        '0'
    } else if d == 1 {
        '1'
    } else if d == 2 {
        '2'
    } else if d == 3 {
        '3'
    } else if d == 4 {
        '4'
    } else if d == 5 {
        '5'
    } else if d == 6 {
        '6'
    } else if d == 7 {
        '7'
    } else if d == 8 {
        '8'
    } else {
        '9'
    }
}

fn digit_str(d: u32) -> (s: &'static str)
    requires
        d < 10,
    ensures
        s@ =~= seq![digit_char(d as nat)],
{
    proof {
        reveal_strlit("0");
        reveal_strlit("1");
        reveal_strlit("2");
        reveal_strlit("3");
        reveal_strlit("4");
        reveal_strlit("5");
        reveal_strlit("6");
        reveal_strlit("7");
        reveal_strlit("8");
        reveal_strlit("9");
    }
    match d {
        0 => "0",
        1 => "1",
        2 => "2",
        3 => "3",
        4 => "4",
        5 => "5",
        6 => "6",
        7 => "7",
        8 => "8",
        _ => "9",
    }
}

/// Renders `n` in decimal, as `u32::to_string` does.
pub fn u32_to_string(n: u32) -> (r: String)
    ensures
        r@ == spec_decimal(n as nat),
{
    let mut tail = String::new();
    let mut m: u32 = n;
    proof {
        assert(spec_decimal(n as nat) =~= spec_decimal(n as nat) + tail@);
    }
    loop
        invariant
            spec_decimal(n as nat) == spec_decimal(m as nat) + tail@,
        decreases m,
    {
        let mut piece = String::from_str(digit_str(m % 10));
        piece.append(tail.as_str());
        if m < 10 {
            proof {
                assert(piece@ =~= spec_decimal(n as nat));
            }
            return piece;
        }
        proof {
            assert(spec_decimal(n as nat) =~= spec_decimal((m / 10) as nat) + piece@);
        }
        tail = piece;
        m = m / 10;
    }
}

/// `n` rendered as exactly six decimal digits, zero-padded: the bucket
/// directory naming convention of the problem tree.
pub open spec fn spec_six_digits(n: nat) -> Seq<char> {
    seq![
        digit_char(n / 100000 % 10),
        digit_char(n / 10000 % 10),
        digit_char(n / 1000 % 10),
        digit_char(n / 100 % 10),
        digit_char(n / 10 % 10),
        digit_char(n % 10),
    ]
}

/// A bucket directory's name: six-digit zero-padded for the usual range,
/// plain decimal beyond it.
pub open spec fn spec_bucket_name(n: nat) -> Seq<char> {
    if n < 1000000 {
        spec_six_digits(n)
    } else {
        spec_decimal(n)
    }
}

/// Renders a bucket number as its directory name.
pub fn format_bucket(n: u32) -> (r: String)
    ensures
        r@ == spec_bucket_name(n as nat),
{
    if n < 1000000 {
        format_six_digits(n)
    } else {
        u32_to_string(n)
    }
}

/// Renders `n` as a six-digit zero-padded decimal string.
pub fn format_six_digits(n: u32) -> (r: String)
    requires
        n < 1000000,
    ensures
        r@ == spec_six_digits(n as nat),
{
    let mut r = String::new();
    r.append(digit_str(n / 100000 % 10));
    r.append(digit_str(n / 10000 % 10));
    r.append(digit_str(n / 1000 % 10));
    r.append(digit_str(n / 100 % 10));
    r.append(digit_str(n / 10 % 10));
    r.append(digit_str(n % 10));
    proof {
        assert(r@ =~= spec_six_digits(n as nat));
    }
    r
}

} // verus!
