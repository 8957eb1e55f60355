//! Regex tester: match listing and replacement over a pattern, an input
//! text and a JavaScript-style flag string.
//!
//! The regex crate compiles and runs the pattern; flag parsing, the
//! global-versus-first choice, capture-group collection and result
//! assembly are verified. The `g` flag is not a compiler option: it picks
//! between all matches and the first.

use vstd::prelude::*;
use vstd::string::StrSliceExecFns;
use vstd::string::StringExecFns;

use crate::strutil::prefix_msg;
use crate::strutil::spec_starts_with;

verus! {

/// One match: the matched text, its byte offsets, and the capture groups
/// that participated.
pub struct RegexMatch {
    pub full_match: String,
    pub start: usize,
    pub end: usize,
    pub groups: Vec<String>,
}

/// The outcome of a match test: the matches found, or a pattern error.
pub struct TestResult {
    pub matches: Vec<RegexMatch>,
    pub error: Option<String>,
}

/// The outcome of a replacement: the rewritten text and how many matches
/// were replaced, or a pattern error.
pub struct ReplaceResult {
    pub result: String,
    pub count: usize,
    pub error: Option<String>,
}

/// Whether a flag character is present.
pub open spec fn spec_flag(flags: Seq<char>, c: char) -> bool {
    flags.contains(c)
}

fn flag_present(flags: &str, c: char) -> (r: bool)
    ensures
        r == spec_flag(flags@, c),
{
    let len = flags.unicode_len();
    let mut i: usize = 0;
    while i < len
        invariant
            len == flags@.len(),
            i <= len,
            forall|j: int| 0 <= j < i ==> flags@[j] != c,
        decreases len - i,
    {
        if flags.get_char(i) == c {
            return true;
        }
        i = i + 1;
    }
    false
}

/// Whether the regex builder accepts the pattern under the given options:
/// case-insensitive, multi-line, dot-matches-newline, ignore-whitespace.
pub uninterp spec fn rx_ok(pat: Seq<char>, ci: bool, ml: bool, dnl: bool, iw: bool) -> bool;

/// Every match of the compiled pattern over the text, in order: byte
/// start, byte end, matched text.
pub uninterp spec fn rx_find_all_of(
    pat: Seq<char>,
    ci: bool,
    ml: bool,
    dnl: bool,
    iw: bool,
    text: Seq<char>,
) -> Seq<(int, int, Seq<char>)>;

/// The capture groups of the first match at or after `start`: one entry
/// per group, `None` for a group that did not participate.
pub uninterp spec fn rx_caps_of(
    pat: Seq<char>,
    ci: bool,
    ml: bool,
    dnl: bool,
    iw: bool,
    text: Seq<char>,
    start: int,
) -> Seq<Option<Seq<char>>>;

/// The text with every match replaced.
pub uninterp spec fn rx_replace_all_of(
    pat: Seq<char>,
    ci: bool,
    ml: bool,
    dnl: bool,
    iw: bool,
    text: Seq<char>,
    rep: Seq<char>,
) -> Seq<char>;

/// The text with the first match replaced.
pub uninterp spec fn rx_replace_first_of(
    pat: Seq<char>,
    ci: bool,
    ml: bool,
    dnl: bool,
    iw: bool,
    text: Seq<char>,
    rep: Seq<char>,
) -> Seq<char>;

/// The match-tuple views of an executable match list.
pub open spec fn matches_model(v: Seq<(usize, usize, String)>) -> Seq<(int, int, Seq<char>)> {
    v.map_values(|t: (usize, usize, String)| (t.0 as int, t.1 as int, t.2@))
}

/// Relies on regex's `RegexBuilder` (with the four options) and
/// `Regex::find_iter`: acceptance of the pattern and the list of matches
/// are functions of the arguments alone.
#[verifier::external_body]
fn rx_find_all(pattern: &str, ci: bool, ml: bool, dnl: bool, iw: bool, text: &str) -> (r: Result<
    Vec<(usize, usize, String)>,
    String,
>)
    ensures
        r is Ok <==> rx_ok(pattern@, ci, ml, dnl, iw),
        r is Ok ==> matches_model(r->Ok_0@) == rx_find_all_of(pattern@, ci, ml, dnl, iw, text@),
{
    let re = regex::RegexBuilder::new(pattern)
        .case_insensitive(ci)
        .multi_line(ml)
        .dot_matches_new_line(dnl)
        .ignore_whitespace(iw)
        .build()
        .map_err(|e| format!("{}", e))?;
    Ok(re.find_iter(text).map(|m| (m.start(), m.end(), m.as_str().to_string())).collect())
}

/// Relies on regex's `RegexBuilder` and `Regex::captures_at`: the groups
/// of the first match at or after `start`, `None` for a group that did not
/// participate; a function of the arguments alone.
#[verifier::external_body]
fn rx_captures_at(
    pattern: &str,
    ci: bool,
    ml: bool,
    dnl: bool,
    iw: bool,
    text: &str,
    start: usize,
) -> (r: Result<Vec<Option<String>>, String>)
    ensures
        r is Ok <==> rx_ok(pattern@, ci, ml, dnl, iw),
        r is Ok ==> r->Ok_0.deep_view() == rx_caps_of(
            pattern@,
            ci,
            ml,
            dnl,
            iw,
            text@,
            start as int,
        ),
{
    let re = regex::RegexBuilder::new(pattern)
        .case_insensitive(ci)
        .multi_line(ml)
        .dot_matches_new_line(dnl)
        .ignore_whitespace(iw)
        .build()
        .map_err(|e| format!("{}", e))?;
    Ok(match re.captures_at(text, start) {
        Some(caps) => (1..caps.len()).map(
            |i| caps.get(i).map(|g| g.as_str().to_string()),
        ).collect(),
        None => Vec::new(),
    })
}

/// Relies on regex's `RegexBuilder`, `Regex::replace` and
/// `Regex::replace_all`: the rewritten text is a function of the
/// arguments alone.
#[verifier::external_body]
fn rx_replace(
    pattern: &str,
    ci: bool,
    ml: bool,
    dnl: bool,
    iw: bool,
    text: &str,
    rep: &str,
    all: bool,
) -> (r: Result<String, String>)
    ensures
        r is Ok <==> rx_ok(pattern@, ci, ml, dnl, iw),
        r is Ok && all ==> r->Ok_0@ == rx_replace_all_of(pattern@, ci, ml, dnl, iw, text@, rep@),
        r is Ok && !all ==> r->Ok_0@ == rx_replace_first_of(
            pattern@,
            ci,
            ml,
            dnl,
            iw,
            text@,
            rep@,
        ),
{
    let re = regex::RegexBuilder::new(pattern)
        .case_insensitive(ci)
        .multi_line(ml)
        .dot_matches_new_line(dnl)
        .ignore_whitespace(iw)
        .build()
        .map_err(|e| format!("{}", e))?;
    if all {
        Ok(re.replace_all(text, rep).to_string())
    } else {
        Ok(re.replace(text, rep).to_string())
    }
}

/// The capture groups that participated, in order.
pub open spec fn spec_somes(l: Seq<Option<Seq<char>>>) -> Seq<Seq<char>>
    decreases l.len(),
{
    if l.len() == 0 {
        Seq::empty()
    } else {
        let rest = spec_somes(l.drop_last());
        match l.last() {
            Some(g) => rest.push(g),
            None => rest,
        }
    }
}

fn collect_somes(l: Vec<Option<String>>) -> (r: Vec<String>)
    ensures
        r.deep_view() == spec_somes(l.deep_view()),
{
    let ghost l_view = l.deep_view();
    let mut out: Vec<String> = Vec::new();
    let mut i: usize = 0;
    proof {
        assert(l_view.take(0) =~= Seq::<Option<Seq<char>>>::empty());
        assert(out.deep_view() =~= spec_somes(l_view.take(0)));
    }
    while i < l.len()
        invariant
            l_view == l.deep_view(),
            l@.len() == l_view.len(),
            i <= l@.len(),
            forall|j: int| 0 <= j < l@.len() ==> (#[trigger] l@[j]).deep_view() == l_view[j],
            out.deep_view() == spec_somes(l_view.take(i as int)),
        decreases l@.len() - i,
    {
        let ghost out_before = out.deep_view();
        match &l[i] {
            Some(g) => {
                let ghost g_view = g@;
                out.push(g.clone());
                proof {
                    assert(out.deep_view() =~= out_before.push(g_view));
                }
            },
            None => {},
        }
        proof {
            assert(l_view.take(i + 1).drop_last() =~= l_view.take(i as int));
            assert(l_view.take(i + 1).last() == l_view[i as int]);
            assert(out.deep_view() =~= spec_somes(l_view.take(i + 1)));
        }
        i = i + 1;
    }
    proof {
        assert(l_view.take(l_view.len() as int) =~= l_view);
    }
    out
}

/// Whether one result entry reports the given match with the given groups.
pub open spec fn spec_match_matches(
    x: RegexMatch,
    m: (int, int, Seq<char>),
    caps: Seq<Option<Seq<char>>>,
) -> bool {
    &&& x.full_match@ == m.2
    &&& x.start as int == m.0
    &&& x.end as int == m.1
    &&& x.groups.deep_view() == spec_somes(caps)
}

/// Runs the pattern over the text: with the `g` flag every match, without
/// it at most the first; each match carries the capture groups found at
/// its own start position. A pattern the builder rejects is reported as an
/// error with no matches.
pub fn test_regex(pattern: &str, text: &str, flags: &str) -> (r: TestResult)
    ensures
        !rx_ok(pattern@, spec_flag(flags@, 'i'), spec_flag(flags@, 'm'), spec_flag(flags@, 's'),
            spec_flag(flags@, 'x'),
        ) ==> r.matches@.len() == 0 && r.error is Some && spec_starts_with(
            r.error->Some_0@,
            "Invalid regex pattern: "@,
        ),
        rx_ok(pattern@, spec_flag(flags@, 'i'), spec_flag(flags@, 'm'), spec_flag(flags@, 's'),
            spec_flag(flags@, 'x'),
        ) ==> {
            let ci = spec_flag(flags@, 'i');
            let ml = spec_flag(flags@, 'm');
            let dnl = spec_flag(flags@, 's');
            let iw = spec_flag(flags@, 'x');
            let all = rx_find_all_of(pattern@, ci, ml, dnl, iw, text@);
            &&& r.error is None
            &&& (spec_flag(flags@, 'g') ==> r.matches@.len() == all.len() && forall|j: int|
                0 <= j < all.len() ==> spec_match_matches(
                    #[trigger] r.matches@[j],
                    all[j],
                    rx_caps_of(pattern@, ci, ml, dnl, iw, text@, all[j].0),
                ))
            &&& (!spec_flag(flags@, 'g') && all.len() == 0 ==> r.matches@.len() == 0)
            &&& (!spec_flag(flags@, 'g') && all.len() > 0 ==> r.matches@.len() == 1
                && spec_match_matches(
                r.matches@[0],
                all[0],
                rx_caps_of(pattern@, ci, ml, dnl, iw, text@, 0),
            ))
        },
{
    let ci = flag_present(flags, 'i');
    let ml = flag_present(flags, 'm');
    let dnl = flag_present(flags, 's');
    let iw = flag_present(flags, 'x');
    let global = flag_present(flags, 'g');
    let found = match rx_find_all(pattern, ci, ml, dnl, iw, text) {
        Ok(v) => v,
        Err(e) => {
            return TestResult {
                matches: Vec::new(),
                error: Some(prefix_msg("Invalid regex pattern: ", e.as_str())),
            };
        },
    };
    let ghost all = rx_find_all_of(pattern@, ci, ml, dnl, iw, text@);
    let mut matches: Vec<RegexMatch> = Vec::new();
    if global {
        let mut i: usize = 0;
        while i < found.len()
            invariant
                rx_ok(pattern@, ci, ml, dnl, iw),
                all == rx_find_all_of(pattern@, ci, ml, dnl, iw, text@),
                matches_model(found@) == all,
                found@.len() == all.len(),
                i <= found@.len(),
                matches@.len() == i,
                forall|j: int|
                    0 <= j < i ==> spec_match_matches(
                        #[trigger] matches@[j],
                        all[j],
                        rx_caps_of(pattern@, ci, ml, dnl, iw, text@, all[j].0),
                    ),
            decreases found@.len() - i,
        {
            proof {
                assert(matches_model(found@)[i as int] == all[i as int]);
            }
            let start = found[i].0;
            let end = found[i].1;
            let full = found[i].2.clone();
            let caps = match rx_captures_at(pattern, ci, ml, dnl, iw, text, start) {
                Ok(c) => c,
                Err(_) => {
                    proof {
                        assert(false);
                    }
                    Vec::new()
                },
            };
            let groups = collect_somes(caps);
            matches.push(RegexMatch { full_match: full, start, end, groups });
            i = i + 1;
        }
    } else {
        if found.len() > 0 {
            proof {
                assert(matches_model(found@)[0] == all[0]);
            }
            let start = found[0].0;
            let end = found[0].1;
            let full = found[0].2.clone();
            let caps = match rx_captures_at(pattern, ci, ml, dnl, iw, text, 0) {
                Ok(c) => c,
                Err(_) => {
                    proof {
                        assert(false);
                    }
                    Vec::new()
                },
            };
            let groups = collect_somes(caps);
            matches.push(RegexMatch { full_match: full, start, end, groups });
        }
    }
    TestResult { matches, error: None }
}

/// Rewrites the text: with the `g` flag every match is replaced and
/// counted, without it at most the first. A pattern the builder rejects is
/// reported as an error with an empty result.
pub fn replace_regex(pattern: &str, text: &str, replacement: &str, flags: &str) -> (r:
    ReplaceResult)
    ensures
        !rx_ok(pattern@, spec_flag(flags@, 'i'), spec_flag(flags@, 'm'), spec_flag(flags@, 's'),
            spec_flag(flags@, 'x'),
        ) ==> r.result@.len() == 0 && r.count == 0 && r.error is Some && spec_starts_with(
            r.error->Some_0@,
            "Invalid regex pattern: "@,
        ),
        rx_ok(pattern@, spec_flag(flags@, 'i'), spec_flag(flags@, 'm'), spec_flag(flags@, 's'),
            spec_flag(flags@, 'x'),
        ) ==> {
            let ci = spec_flag(flags@, 'i');
            let ml = spec_flag(flags@, 'm');
            let dnl = spec_flag(flags@, 's');
            let iw = spec_flag(flags@, 'x');
            let all = rx_find_all_of(pattern@, ci, ml, dnl, iw, text@);
            &&& r.error is None
            &&& (spec_flag(flags@, 'g') ==> r.result@ == rx_replace_all_of(
                pattern@,
                ci,
                ml,
                dnl,
                iw,
                text@,
                replacement@,
            ) && r.count == all.len())
            &&& (!spec_flag(flags@, 'g') ==> r.result@ == rx_replace_first_of(
                pattern@,
                ci,
                ml,
                dnl,
                iw,
                text@,
                replacement@,
            ) && r.count == (if all.len() > 0 {
                1int
            } else {
                0int
            }))
        },
{
    let ci = flag_present(flags, 'i');
    let ml = flag_present(flags, 'm');
    let dnl = flag_present(flags, 's');
    let iw = flag_present(flags, 'x');
    let global = flag_present(flags, 'g');
    let found = match rx_find_all(pattern, ci, ml, dnl, iw, text) {
        Ok(v) => v,
        Err(e) => {
            return ReplaceResult {
                result: String::new(),
                count: 0,
                error: Some(prefix_msg("Invalid regex pattern: ", e.as_str())),
            };
        },
    };
    let count = if global {
        found.len()
    } else if found.len() > 0 {
        1
    } else {
        0
    };
    let rewritten = match rx_replace(pattern, ci, ml, dnl, iw, text, replacement, global) {
        Ok(s) => s,
        Err(_) => {
            proof {
                assert(false);
            }
            String::new()
        },
    };
    proof {
        assert(found@.len() == rx_find_all_of(pattern@, ci, ml, dnl, iw, text@).len());
    }
    ReplaceResult { result: rewritten, count, error: None }
}

} // verus!
