//! Small verified string utilities: equality, trimming, prefix stripping,
//! splitting on a separator, and decimal formatting of integers.

use vstd::prelude::*;
use vstd::string::StrSliceExecFns;
use vstd::string::StringExecFns;

verus! {

/// The whitespace characters trimmed from token edges.
pub open spec fn is_ws(c: char) -> bool {
    c == ' ' || c == '\t' || c == '\n' || c == '\r'
}

/// The input without leading whitespace.
pub open spec fn trim_front(s: Seq<char>) -> Seq<char>
    decreases s.len(),
{
    if s.len() > 0 && is_ws(s[0]) {
        trim_front(s.drop_first())
    } else {
        s
    }
}

/// The input without trailing whitespace.
pub open spec fn trim_back(s: Seq<char>) -> Seq<char>
    decreases s.len(),
{
    if s.len() > 0 && is_ws(s.last()) {
        trim_back(s.drop_last())
    } else {
        s
    }
}

/// The input without surrounding whitespace.
pub open spec fn spec_trim(s: Seq<char>) -> Seq<char> {
    trim_back(trim_front(s))
}

fn is_ws_exec(c: char) -> (r: bool)
    ensures
        r == is_ws(c),
{
    c == ' ' || c == '\t' || c == '\n' || c == '\r'
}

/// Removes surrounding whitespace.
pub fn trim_ws(s: &str) -> (r: &str)
    ensures
        r@ == spec_trim(s@),
{
    let len = s.unicode_len();
    proof {
        assert(s@.subrange(0, len as int) =~= s@);
    }
    let mut start: usize = 0;
    while start < len && is_ws_exec(s.get_char(start))
        invariant
            len == s@.len(),
            start <= len,
            trim_front(s@) == trim_front(s@.subrange(start as int, len as int)),
        decreases len - start,
    {
        proof {
            let tail = s@.subrange(start as int, len as int);
            assert(tail.drop_first() =~= s@.subrange(start + 1, len as int));
        }
        start = start + 1;
    }
    proof {
        let tail = s@.subrange(start as int, len as int);
        assert(trim_front(tail) == tail);
    }
    let mut end: usize = len;
    while end > start && is_ws_exec(s.get_char(end - 1))
        invariant
            len == s@.len(),
            start <= end <= len,
            trim_front(s@) == trim_front(s@.subrange(start as int, len as int)),
            trim_front(s@.subrange(start as int, len as int)) == s@.subrange(start as int, len as int),
            trim_back(s@.subrange(start as int, len as int)) == trim_back(
                s@.subrange(start as int, end as int),
            ),
        decreases end,
    {
        proof {
            let mid = s@.subrange(start as int, end as int);
            assert(mid.drop_last() =~= s@.subrange(start as int, end - 1));
        }
        end = end - 1;
    }
    proof {
        let mid = s@.subrange(start as int, end as int);
        assert(trim_back(mid) == mid);
    }
    s.substring_char(start, end)
}

/// Trimming leaves a string untouched when neither end is whitespace.
pub proof fn lemma_trim_id(s: Seq<char>)
    requires
        s.len() > 0,
        !is_ws(s[0]),
        !is_ws(s.last()),
    ensures
        spec_trim(s) == s,
{
    assert(trim_front(s) == s);
    assert(trim_back(s) == s);
}

/// Whether the input starts with the literal `"Bearer "` prefix.
pub open spec fn has_bearer_prefix(s: Seq<char>) -> bool {
    s.len() >= 7 && s.subrange(0, 7) == "Bearer "@
}

/// The input with a leading `"Bearer "` prefix removed, if present.
pub open spec fn spec_strip_bearer(s: Seq<char>) -> Seq<char> {
    if has_bearer_prefix(s) {
        s.skip(7)
    } else {
        s
    }
}

/// Strips a leading `"Bearer "` prefix, if present.
pub fn strip_bearer(s: &str) -> (r: &str)
    ensures
        r@ == spec_strip_bearer(s@),
{
    proof {
        reveal_strlit("Bearer ");
    }
    let len = s.unicode_len();
    if len >= 7 && s.get_char(0) == 'B' && s.get_char(1) == 'e' && s.get_char(2) == 'a'
        && s.get_char(3) == 'r' && s.get_char(4) == 'e' && s.get_char(5) == 'r' && s.get_char(6)
        == ' ' {
        proof {
            assert(s@.subrange(0, 7) =~= "Bearer "@);
        }
        s.substring_char(7, len)
    } else {
        proof {
            if s@.len() >= 7 && s@.subrange(0, 7) == "Bearer "@ {
                assert(forall|j: int| 0 <= j < 7 ==> s@[j] == s@.subrange(0, 7)[j]);
                assert(s@[0] == 'B' && s@[1] == 'e' && s@[2] == 'a' && s@[3] == 'r' && s@[4] == 'e'
                    && s@[5] == 'r' && s@[6] == ' ');
            }
        }
        s
    }
}

/// The index of the first occurrence of `sep`, or -1 if absent.
pub open spec fn find_sep(s: Seq<char>, sep: char) -> int
    decreases s.len(),
{
    if s.len() == 0 {
        -1
    } else if s[0] == sep {
        0
    } else if find_sep(s.drop_first(), sep) == -1 {
        -1
    } else {
        find_sep(s.drop_first(), sep) + 1
    }
}

proof fn lemma_find_sep_bounds(s: Seq<char>, sep: char)
    ensures
        find_sep(s, sep) == -1 ==> forall|j: int| 0 <= j < s.len() ==> s[j] != sep,
        find_sep(s, sep) != -1 ==> 0 <= find_sep(s, sep) < s.len() && s[find_sep(s, sep)] == sep
            && forall|j: int| 0 <= j < find_sep(s, sep) ==> s[j] != sep,
    decreases s.len(),
{
    if s.len() > 0 && s[0] != sep {
        lemma_find_sep_bounds(s.drop_first(), sep);
        let t = s.drop_first();
        assert(forall|j: int| 0 <= j < t.len() ==> t[j] == s[j + 1]);
        if find_sep(s, sep) != -1 {
            let i = find_sep(t, sep);
            assert(s[find_sep(s, sep)] == t[i]);
            assert forall|j: int| 0 <= j < find_sep(s, sep) implies s[j] != sep by {
                if j >= 1 {
                    assert(s[j] == t[j - 1]);
                }
            }
        } else {
            assert forall|j: int| 0 <= j < s.len() implies s[j] != sep by {
                if j >= 1 {
                    assert(s[j] == t[j - 1]);
                }
            }
        }
    }
}

proof fn lemma_find_sep_none(s: Seq<char>, sep: char)
    requires
        forall|j: int| 0 <= j < s.len() ==> s[j] != sep,
    ensures
        find_sep(s, sep) == -1,
    decreases s.len(),
{
    if s.len() > 0 {
        lemma_find_sep_none(s.drop_first(), sep);
    }
}

/// The first occurrence of a separator-free prefix followed by `sep` pins
/// down `find_sep`.
pub proof fn lemma_find_sep_at(s: Seq<char>, sep: char, i: int)
    requires
        0 <= i < s.len(),
        s[i] == sep,
        forall|j: int| 0 <= j < i ==> s[j] != sep,
    ensures
        find_sep(s, sep) == i,
    decreases i,
{
    if i > 0 {
        let t = s.drop_first();
        assert(forall|j: int| 0 <= j < t.len() ==> t[j] == s[j + 1]);
        assert(t[i - 1] == sep);
        assert forall|j: int| 0 <= j < i - 1 implies t[j] != sep by {
            assert(t[j] == s[j + 1]);
        }
        lemma_find_sep_at(t, sep, i - 1);
    }
}

/// Finds the first occurrence of a character.
pub fn find_char(s: &str, c: char) -> (r: Option<usize>)
    ensures
        r is Some <==> find_sep(s@, c) != -1,
        r is Some ==> r->Some_0 == find_sep(s@, c) && r->Some_0 < s@.len() && s@[
            r->Some_0 as int
        ] == c,
{
    let len = s.unicode_len();
    let mut i: usize = 0;
    while i < len
        invariant
            len == s@.len(),
            i <= len,
            forall|j: int| 0 <= j < i ==> s@[j] != c,
        decreases len - i,
    {
        if s.get_char(i) == c {
            proof {
                lemma_find_sep_at(s@, c, i as int);
            }
            return Some(i);
        }
        i = i + 1;
    }
    proof {
        lemma_find_sep_none(s@, c);
    }
    None
}

/// The segments of `s` split on `sep`: always at least one segment, one
/// more than the number of separators.
pub open spec fn spec_split(s: Seq<char>, sep: char) -> Seq<Seq<char>>
    decreases s.len(),
{
    let i = find_sep(s, sep);
    if i == -1 {
        seq![s]
    } else if 0 <= i < s.len() {
        seq![s.take(i)] + spec_split(s.skip(i + 1), sep)
    } else {
        seq![s]
    }
}

/// Splitting a separator-free string gives that one segment.
pub proof fn lemma_split_whole(a: Seq<char>, sep: char)
    requires
        forall|j: int| 0 <= j < a.len() ==> a[j] != sep,
    ensures
        spec_split(a, sep) =~= seq![a],
{
    lemma_find_sep_none(a, sep);
}

/// Splitting `a ++ sep ++ b` with `a` separator-free peels off `a`.
pub proof fn lemma_split_step(a: Seq<char>, b: Seq<char>, sep: char)
    requires
        forall|j: int| 0 <= j < a.len() ==> a[j] != sep,
    ensures
        spec_split(a + seq![sep] + b, sep) =~= seq![a] + spec_split(b, sep),
{
    let s = a + seq![sep] + b;
    lemma_find_sep_bounds(s, sep);
    assert(s[a.len() as int] == sep);
    assert(forall|j: int| 0 <= j < a.len() ==> s[j] == a[j]);
    let i = find_sep(s, sep);
    assert(i != -1);
    assert(i <= a.len()) by {
        if i > a.len() {
            assert(s[a.len() as int] == sep);
        }
    }
    assert(i == a.len()) by {
        if i < a.len() {
            assert(s[i] == a[i]);
        }
    }
    assert(s.take(i) =~= a);
    assert(s.skip(i + 1) =~= b);
}

/// Splits on a separator character, returning the list of segments.
pub fn split_char(s: &str, sep: char) -> (r: Vec<String>)
    ensures
        r.deep_view() == spec_split(s@, sep),
{
    let len = s.unicode_len();
    proof {
        assert(s@.subrange(0, len as int) =~= s@);
    }
    let mut parts: Vec<String> = Vec::new();
    let mut seg_start: usize = 0;
    let mut i: usize = 0;
    while i < len
        invariant
            len == s@.len(),
            seg_start <= i <= len,
            forall|j: int| seg_start <= j < i ==> s@[j] != sep,
            spec_split(s@, sep) =~= parts.deep_view() + spec_split(
                s@.subrange(seg_start as int, len as int),
                sep,
            ),
        decreases len - i,
    {
        if s.get_char(i) == sep {
            let seg = String::from_str(s.substring_char(seg_start, i));
            proof {
                let a = s@.subrange(seg_start as int, i as int);
                let b = s@.subrange(i + 1, len as int);
                assert(s@.subrange(seg_start as int, len as int) =~= a + seq![sep] + b);
                lemma_split_step(a, b, sep);
                assert(parts.deep_view().push(seg@) =~= parts.deep_view() + seq![a]);
            }
            parts.push(seg);
            seg_start = i + 1;
        }
        i = i + 1;
    }
    let seg = String::from_str(s.substring_char(seg_start, len));
    proof {
        let a = s@.subrange(seg_start as int, len as int);
        lemma_split_whole(a, sep);
        assert(parts.deep_view().push(seg@) =~= parts.deep_view() + seq![a]);
    }
    parts.push(seg);
    proof {
        assert(parts.deep_view() =~= spec_split(s@, sep));
    }
    parts
}

/// The decimal digit character for a value below ten.
pub open spec fn dec_digit(d: int) -> char {
    if d == 0 {
        '0'
    } else if d == 1 {
        '1'
    } else if d == 2 {
        '2'
    } else if d == 3 {
        '3'
    } else if d == 4 {
        '4'
    } else if d == 5 {
        '5'
    } else if d == 6 {
        '6'
    } else if d == 7 {
        '7'
    } else if d == 8 {
        '8'
    } else {
        '9'
    }
}

/// The decimal representation of a natural number.
pub open spec fn dec_nat(n: nat) -> Seq<char>
    decreases n,
{
    if n < 10 {
        seq![dec_digit(n as int)]
    } else {
        dec_nat(n / 10) + seq![dec_digit((n % 10) as int)]
    }
}

/// The decimal representation of an integer, with a leading minus sign
/// when negative.
pub open spec fn dec_int(n: int) -> Seq<char> {
    if n < 0 {
        seq!['-'] + dec_nat((-n) as nat)
    } else {
        dec_nat(n as nat)
    }
}

fn digit_str(d: u64) -> (r: &'static str)
    requires
        d < 10,
    ensures
        r@ == seq![dec_digit(d as int)],
{
    proof {
        reveal_strlit("0");
        reveal_strlit("1");
        reveal_strlit("2");
        reveal_strlit("3");
        reveal_strlit("4");
        reveal_strlit("5");
        reveal_strlit("6");
        reveal_strlit("7");
        reveal_strlit("8");
        reveal_strlit("9");
    }
    let r = if d == 0 {
        "0"
    } else if d == 1 {
        "1"
    } else if d == 2 {
        "2"
    } else if d == 3 {
        "3"
    } else if d == 4 {
        "4"
    } else if d == 5 {
        "5"
    } else if d == 6 {
        "6"
    } else if d == 7 {
        "7"
    } else if d == 8 {
        "8"
    } else {
        "9"
    };
    proof {
        assert(r@ =~= seq![dec_digit(d as int)]);
    }
    r
}

/// Formats a natural number in decimal.
pub fn u64_to_string(n: u64) -> (r: String)
    ensures
        r@ == dec_nat(n as nat),
    decreases n,
{
    if n < 10 {
        String::from_str(digit_str(n))
    } else {
        let r = u64_to_string(n / 10).concat(digit_str(n % 10));
        r
    }
}

/// Formats an integer in decimal, with a leading minus sign when negative.
pub fn i64_to_string(n: i64) -> (r: String)
    ensures
        r@ == dec_int(n as int),
{
    if n >= 0 {
        u64_to_string(n as u64)
    } else {
        let mag: u64 = ((-(n + 1)) as u64) + 1;
        assert(mag as nat == (-(n as int)) as nat);
        let r = String::from_str("-").concat(u64_to_string(mag).as_str());
        proof {
            reveal_strlit("-");
            assert(r@ =~= dec_int(n as int));
        }
        r
    }
}

/// Whether `s` begins with the prefix `p`.
pub open spec fn spec_starts_with(s: Seq<char>, p: Seq<char>) -> bool {
    s.len() >= p.len() && s.subrange(0, p.len() as int) == p
}

/// Prepends a fixed prefix to a detail message.
pub fn prefix_msg(prefix: &str, detail: &str) -> (r: String)
    ensures
        r@ == prefix@ + detail@,
        spec_starts_with(r@, prefix@),
{
    let r = String::from_str(prefix).concat(detail);
    proof {
        assert(r@.subrange(0, prefix@.len() as int) =~= prefix@);
    }
    r
}

/// Formats a machine word in decimal.
pub fn usize_to_string(n: usize) -> (r: String)
    ensures
        r@ == dec_nat(n as nat),
{
    u64_to_string(n as u64)
}

/// Character-wise string equality.
pub fn str_eq(a: &str, b: &str) -> (r: bool)
    ensures
        r == (a@ == b@),
{
    let alen = a.unicode_len();
    let blen = b.unicode_len();
    if alen != blen {
        assert(a@ != b@);
        return false;
    }
    let mut i: usize = 0;
    while i < alen
        invariant
            alen == a@.len(),
            blen == b@.len(),
            alen == blen,
            i <= alen,
            forall|j: int| 0 <= j < i ==> a@[j] == b@[j],
        decreases alen - i,
    {
        if a.get_char(i) != b.get_char(i) {
            assert(a@ != b@);
            return false;
        }
        i = i + 1;
    }
    assert(a@ =~= b@);
    true
}

} // verus!
