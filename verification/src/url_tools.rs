//! URL tools: percent encoding and decoding, splitting a URL into its
//! parts with aggregated query parameters, and assembling a URL from
//! parts.
//!
//! The url crate validates URL syntax and hands out the components; the
//! percent_encoding crate does the character escaping. The dispatch, the
//! query-parameter aggregation and the assembly are verified.

use vstd::prelude::*;
use vstd::string::StrSliceExecFns;
use vstd::string::StringExecFns;
use vstd::utf8::encode_utf8;

use crate::strutil::dec_nat;
use crate::strutil::find_char;
use crate::strutil::find_sep;
use crate::strutil::prefix_msg;
use crate::strutil::spec_split;
use crate::strutil::spec_starts_with;
use crate::strutil::spec_trim;
use crate::strutil::split_char;
use crate::strutil::str_eq;
use crate::strutil::trim_ws;
use crate::strutil::u64_to_string;

verus! {

/// The component strings of a URL, as the parsing and building commands
/// exchange them: absent components are carried as empty strings.
#[derive(Debug)]
pub struct UrlParts {
    pub protocol: String,
    pub username: String,
    pub password: String,
    pub hostname: String,
    pub port: String,
    pub pathname: String,
    pub search: String,
    pub hash: String,
}

/// One aggregated query parameter value: a single value, or every value
/// seen for a repeated key, in arrival order.
#[derive(Debug)]
pub enum UrlParamValue {
    Single(String),
    Multiple(Vec<String>),
}

/// The result of parsing a URL: its parts and its aggregated query
/// parameters.
#[derive(Debug)]
pub struct ParsedUrlResult {
    pub parts: UrlParts,
    pub params: Vec<(String, UrlParamValue)>,
}

/// What percent-encoding of bytes with the non-alphanumeric set returns.
pub uninterp spec fn pct_enc_of(b: Seq<u8>) -> Seq<char>;

/// What percent-decoding then UTF-8 decoding of text returns: the decoded
/// characters, or `None` when the decoded bytes are not UTF-8.
pub uninterp spec fn pct_dec_of(s: Seq<char>) -> Option<Seq<char>>;

/// The component views of a parsed URL, in order: scheme, username,
/// password, host, port, path, query, fragment. `None` when the text is
/// not a URL the parser accepts.
pub uninterp spec fn url_fields_of(s: Seq<char>) -> Option<
    (Seq<char>, Seq<char>, Option<Seq<char>>, Option<Seq<char>>, Option<u16>, Seq<char>, Option<
        Seq<char>,
    >, Option<Seq<char>>),
>;

/// Relies on percent_encoding's `percent_encode` with `NON_ALPHANUMERIC`:
/// the escaped text is a function of the bytes alone.
#[verifier::external_body]
pub fn pct_encode(b: &[u8]) -> (r: String)
    ensures
        r@ == pct_enc_of(b@),
{
    percent_encoding::percent_encode(b, percent_encoding::NON_ALPHANUMERIC).to_string()
}

/// Relies on percent_encoding's `percent_decode_str` and `decode_utf8`:
/// the outcome is a function of the text alone, `None` exactly when the
/// unescaped bytes are not valid UTF-8.
#[verifier::external_body]
pub fn pct_decode_utf8(s: &str) -> (r: Option<String>)
    ensures
        r is Some <==> pct_dec_of(s@) is Some,
        r is Some ==> Some(r->Some_0@) == pct_dec_of(s@),
{
    match percent_encoding::percent_decode_str(s).decode_utf8() {
        Ok(cow) => Some(cow.to_string()),
        Err(_) => None,
    }
}

/// The raw components the url crate hands out for one parsed URL.
struct RawUrl {
    scheme: String,
    username: String,
    password: Option<String>,
    host: Option<String>,
    port: Option<u16>,
    path: String,
    query: Option<String>,
    fragment: Option<String>,
}

/// Relies on the url crate's `Url::parse` and its component accessors
/// `scheme`, `username`, `password`, `host_str`, `port`, `path`, `query`
/// and `fragment`: acceptance and every component are functions of the
/// text alone.
#[verifier::external_body]
fn url_parse_raw(s: &str) -> (r: Result<RawUrl, String>)
    ensures
        r is Ok <==> url_fields_of(s@) is Some,
        r is Ok ==> {
            let f = url_fields_of(s@)->Some_0;
            &&& r->Ok_0.scheme@ == f.0
            &&& r->Ok_0.username@ == f.1
            &&& r->Ok_0.password.deep_view() == f.2
            &&& r->Ok_0.host.deep_view() == f.3
            &&& r->Ok_0.port == f.4
            &&& r->Ok_0.path@ == f.5
            &&& r->Ok_0.query.deep_view() == f.6
            &&& r->Ok_0.fragment.deep_view() == f.7
        },
{
    match url::Url::parse(s) {
        Ok(u) => Ok(RawUrl {
            scheme: u.scheme().to_owned(),
            username: u.username().to_owned(),
            password: u.password().map(str::to_owned),
            host: u.host_str().map(str::to_owned),
            port: u.port(),
            path: u.path().to_owned(),
            query: u.query().map(str::to_owned),
            fragment: u.fragment().map(str::to_owned),
        }),
        Err(e) => Err(format!("{}", e)),
    }
}

/// Percent-encodes or percent-decodes one string, by mode.
pub fn process_url_encode_decode(input: &str, mode: &str) -> (r: Result<String, String>)
    ensures
        mode@ == "encode"@ ==> r is Ok && r->Ok_0@ == pct_enc_of(encode_utf8(input@)),
        mode@ == "decode"@ ==> {
            &&& r is Ok <==> pct_dec_of(input@) is Some
            &&& r is Ok ==> Some(r->Ok_0@) == pct_dec_of(input@)
            &&& r is Err ==> r->Err_0@ == "Failed to decode: invalid UTF-8 after unescaping"@
        },
        mode@ != "encode"@ && mode@ != "decode"@ ==> r is Err && r->Err_0@
            == "Invalid mode. Use 'encode' or 'decode'."@,
{
    proof {
        reveal_strlit("encode");
        reveal_strlit("decode");
        assert("encode"@.len() == 6 && "decode"@.len() == 6);
        assert("encode"@[0] == 'e' && "decode"@[0] == 'd');
    }
    if str_eq(mode, "encode") {
        Ok(pct_encode(input.as_bytes()))
    } else if str_eq(mode, "decode") {
        match pct_decode_utf8(input) {
            Some(s) => Ok(s),
            None => Err(String::from_str("Failed to decode: invalid UTF-8 after unescaping")),
        }
    } else {
        Err(String::from_str("Invalid mode. Use 'encode' or 'decode'."))
    }
}

/// One aggregated parameter value at the model level.
pub enum SpecParamValue {
    One(Seq<char>),
    Many(Seq<Seq<char>>),
}

/// The index of a key in the parameter list, or -1 when absent.
pub open spec fn param_find(l: Seq<(Seq<char>, SpecParamValue)>, k: Seq<char>) -> int
    decreases l.len(),
{
    if l.len() == 0 {
        -1
    } else if l.first().0 == k {
        0
    } else if param_find(l.drop_first(), k) == -1 {
        -1
    } else {
        param_find(l.drop_first(), k) + 1
    }
}

/// Where the key sits, when it does.
pub proof fn lemma_param_find(l: Seq<(Seq<char>, SpecParamValue)>, k: Seq<char>)
    ensures
        param_find(l, k) == -1 ==> forall|j: int| 0 <= j < l.len() ==> (#[trigger] l[j]).0 != k,
        param_find(l, k) != -1 ==> 0 <= param_find(l, k) < l.len() && l[param_find(l, k)].0 == k
            && forall|j: int| 0 <= j < param_find(l, k) ==> (#[trigger] l[j]).0 != k,
    decreases l.len(),
{
    if l.len() > 0 && l.first().0 != k {
        lemma_param_find(l.drop_first(), k);
        let t = l.drop_first();
        assert(forall|j: int| 0 <= j < t.len() ==> t[j] == l[j + 1]);
        if param_find(l, k) != -1 {
            let i = param_find(t, k);
            assert(l[param_find(l, k)] == t[i]);
            assert forall|j: int| 0 <= j < param_find(l, k) implies (#[trigger] l[j]).0 != k by {
                if j >= 1 {
                    assert(l[j] == t[j - 1]);
                }
            }
        } else {
            assert forall|j: int| 0 <= j < l.len() implies (#[trigger] l[j]).0 != k by {
                if j >= 1 {
                    assert(l[j] == t[j - 1]);
                }
            }
        }
    }
}

/// Adding a valued pair: a fresh key is appended as a single value; a
/// repeated key's entry grows into (or extends) the list of values.
pub open spec fn param_add_valued(
    l: Seq<(Seq<char>, SpecParamValue)>,
    k: Seq<char>,
    v: Seq<char>,
) -> Seq<(Seq<char>, SpecParamValue)> {
    let i = param_find(l, k);
    if i == -1 {
        l.push((k, SpecParamValue::One(v)))
    } else {
        l.update(
            i,
            (
                k,
                match l[i].1 {
                    SpecParamValue::One(p) => SpecParamValue::Many(seq![p, v]),
                    SpecParamValue::Many(a) => SpecParamValue::Many(a.push(v)),
                },
            ),
        )
    }
}

/// A key without a value: inserted, or overwritten, as a single empty
/// value.
pub open spec fn param_set_bare(l: Seq<(Seq<char>, SpecParamValue)>, k: Seq<char>) -> Seq<
    (Seq<char>, SpecParamValue),
> {
    let i = param_find(l, k);
    if i == -1 {
        l.push((k, SpecParamValue::One(Seq::empty())))
    } else {
        l.update(i, (k, SpecParamValue::One(Seq::empty())))
    }
}

/// One `key=value` or bare-key query segment applied to the list: keys and
/// values are percent-decoded, a key falling back to its raw text when its
/// own decoding fails, while a segment whose value does not decode is
/// dropped.
pub open spec fn param_step(l: Seq<(Seq<char>, SpecParamValue)>, seg: Seq<char>) -> Seq<
    (Seq<char>, SpecParamValue),
> {
    let e = find_sep(seg, '=');
    if e == -1 {
        let kd = match pct_dec_of(seg) {
            Some(d) => d,
            None => seg,
        };
        param_set_bare(l, kd)
    } else {
        let k = seg.take(e);
        let v = seg.skip(e + 1);
        match pct_dec_of(v) {
            None => l,
            Some(vd) => {
                let kd = match pct_dec_of(k) {
                    Some(d) => d,
                    None => k,
                };
                param_add_valued(l, kd, vd)
            },
        }
    }
}

/// The aggregated parameters of a list of query segments, applied left to
/// right.
pub open spec fn spec_params(segs: Seq<Seq<char>>) -> Seq<(Seq<char>, SpecParamValue)>
    decreases segs.len(),
{
    if segs.len() == 0 {
        Seq::empty()
    } else {
        param_step(spec_params(segs.drop_last()), segs.last())
    }
}

/// The aggregated parameters of a whole query string, or none without a
/// query.
pub open spec fn spec_url_params(query: Option<Seq<char>>) -> Seq<(Seq<char>, SpecParamValue)> {
    match query {
        None => Seq::empty(),
        Some(q) => spec_params(spec_split(q, '&')),
    }
}

/// Whether one executable parameter value carries the model value.
pub open spec fn param_value_matches(x: UrlParamValue, y: SpecParamValue) -> bool {
    match x {
        UrlParamValue::Single(s) => y == SpecParamValue::One(s@),
        UrlParamValue::Multiple(a) => y == SpecParamValue::Many(a.deep_view()),
    }
}

/// Whether the executable parameter list carries the model list.
pub open spec fn params_match(
    v: Seq<(String, UrlParamValue)>,
    m: Seq<(Seq<char>, SpecParamValue)>,
) -> bool {
    v.len() == m.len() && forall|i: int|
        0 <= i < v.len() ==> (#[trigger] v[i]).0@ == m[i].0 && param_value_matches(v[i].1, m[i].1)
}

fn params_find_key(params: &Vec<(String, UrlParamValue)>, k: &str, Ghost(m): Ghost<
    Seq<(Seq<char>, SpecParamValue)>,
>) -> (r: Option<usize>)
    requires
        params_match(params@, m),
    ensures
        r is Some <==> param_find(m, k@) != -1,
        r is Some ==> r->Some_0 == param_find(m, k@) && r->Some_0 < params@.len(),
{
    proof {
        lemma_param_find(m, k@);
    }
    let mut i: usize = 0;
    while i < params.len()
        invariant
            params_match(params@, m),
            i <= params@.len(),
            forall|j: int| 0 <= j < i ==> (#[trigger] m[j]).0 != k@,
        decreases params@.len() - i,
    {
        if str_eq(params[i].0.as_str(), k) {
            proof {
                lemma_param_find(m, k@);
                if param_find(m, k@) != i {
                    assert(m[i as int].0 == k@);
                }
            }
            return Some(i);
        }
        i = i + 1;
    }
    None
}

fn params_add_valued(params: &mut Vec<(String, UrlParamValue)>, k: String, v: String, Ghost(m):
    Ghost<Seq<(Seq<char>, SpecParamValue)>>)
    requires
        params_match(old(params)@, m),
    ensures
        params_match(final(params)@, param_add_valued(m, k@, v@)),
{
    match params_find_key(params, k.as_str(), Ghost(m)) {
        None => {
            params.push((k, UrlParamValue::Single(v)));
            proof {
                assert(params_match(params@, param_add_valued(m, k@, v@)));
            }
        },
        Some(i) => {
            let ghost before = params@;
            let ghost v_view = v@;
            let entry = params.remove(i);
            let new_value = match entry.1 {
                UrlParamValue::Single(p) => {
                    let ghost p_view = p@;
                    let mut both: Vec<String> = Vec::new();
                    both.push(p);
                    both.push(v);
                    proof {
                        assert(both.deep_view() =~= seq![p_view, v_view]);
                    }
                    UrlParamValue::Multiple(both)
                },
                UrlParamValue::Multiple(mut a) => {
                    let ghost a_view = a.deep_view();
                    a.push(v);
                    proof {
                        assert(a.deep_view() =~= a_view.push(v_view));
                    }
                    UrlParamValue::Multiple(a)
                },
            };
            params.insert(i, (k, new_value));
            proof {
                lemma_param_find(m, k@);
                let updated = param_add_valued(m, k@, v@);
                assert(params@ =~= before.update(i as int, (k, new_value)));
                assert(param_value_matches(new_value, updated[i as int].1));
                assert forall|j: int| 0 <= j < params@.len() implies (#[trigger] params@[j]).0@
                    == updated[j].0 && param_value_matches(params@[j].1, updated[j].1) by {
                    if j != i {
                        assert(params@[j] == before[j]);
                        assert(updated[j] == m[j]);
                    }
                }
                assert(params_match(params@, updated));
            }
        },
    }
}

fn params_set_bare(params: &mut Vec<(String, UrlParamValue)>, k: String, Ghost(m): Ghost<
    Seq<(Seq<char>, SpecParamValue)>,
>)
    requires
        params_match(old(params)@, m),
    ensures
        params_match(final(params)@, param_set_bare(m, k@)),
{
    match params_find_key(params, k.as_str(), Ghost(m)) {
        None => {
            params.push((k, UrlParamValue::Single(String::new())));
            proof {
                assert(params_match(params@, param_set_bare(m, k@)));
            }
        },
        Some(i) => {
            let ghost before = params@;
            let _ = params.remove(i);
            let fresh = String::new();
            params.insert(i, (k, UrlParamValue::Single(fresh)));
            proof {
                lemma_param_find(m, k@);
                let updated = param_set_bare(m, k@);
                assert(params@ =~= before.update(
                    i as int,
                    (k, UrlParamValue::Single(fresh)),
                ));
                assert forall|j: int| 0 <= j < params@.len() implies (#[trigger] params@[j]).0@
                    == updated[j].0 && param_value_matches(params@[j].1, updated[j].1) by {
                    if j != i {
                        assert(params@[j] == before[j]);
                        assert(updated[j] == m[j]);
                    }
                }
                assert(params_match(params@, updated));
            }
        },
    }
}

fn aggregate_params(query: &str) -> (r: Vec<(String, UrlParamValue)>)
    ensures
        params_match(r@, spec_params(spec_split(query@, '&'))),
{
    let segs = split_char(query, '&');
    let ghost segs_view = segs.deep_view();
    let mut params: Vec<(String, UrlParamValue)> = Vec::new();
    let mut i: usize = 0;
    proof {
        assert(segs_view.take(0) =~= Seq::<Seq<char>>::empty());
    }
    while i < segs.len()
        invariant
            segs_view == segs.deep_view(),
            segs@.len() == segs_view.len(),
            i <= segs@.len(),
            forall|j: int| 0 <= j < segs@.len() ==> (#[trigger] segs@[j])@ == segs_view[j],
            params_match(params@, spec_params(segs_view.take(i as int))),
        decreases segs@.len() - i,
    {
        let ghost m = spec_params(segs_view.take(i as int));
        let seg = &segs[i];
        let seg_len = seg.as_str().unicode_len();
        match find_char(seg.as_str(), '=') {
            None => {
                let key = match pct_decode_utf8(seg.as_str()) {
                    Some(d) => d,
                    None => seg.clone(),
                };
                params_set_bare(&mut params, key, Ghost(m));
            },
            Some(e) => {
                let raw_key = seg.as_str().substring_char(0, e);
                let raw_value = seg.as_str().substring_char(e + 1, seg_len);
                match pct_decode_utf8(raw_value) {
                    None => {},
                    Some(vd) => {
                        let key = match pct_decode_utf8(raw_key) {
                            Some(d) => d,
                            None => String::from_str(raw_key),
                        };
                        params_add_valued(&mut params, key, vd, Ghost(m));
                    },
                }
            },
        }
        proof {
            assert(segs_view.take(i + 1).drop_last() =~= segs_view.take(i as int));
            assert(segs_view.take(i + 1).last() == segs_view[i as int]);
            assert(params_match(params@, spec_params(segs_view.take(i + 1))));
        }
        i = i + 1;
    }
    proof {
        assert(segs_view.take(segs_view.len() as int) =~= segs_view);
    }
    params
}

/// The part strings owed for one set of raw components: absent components
/// become empty strings, the port is shown in decimal.
pub open spec fn spec_opt_or_empty(o: Option<Seq<char>>) -> Seq<char> {
    match o {
        Some(s) => s,
        None => Seq::empty(),
    }
}

/// Splits a URL into its component parts and aggregates its query
/// parameters: repeated keys collect every value, keys without a value
/// carry an empty string, and undecodable values are dropped.
pub fn parse_url(url: &str) -> (r: Result<ParsedUrlResult, String>)
    ensures
        r is Ok <==> url_fields_of(url@) is Some,
        r is Err ==> spec_starts_with(r->Err_0@, "Failed to parse URL: "@),
        r is Ok ==> {
            let f = url_fields_of(url@)->Some_0;
            &&& r->Ok_0.parts.protocol@ == f.0
            &&& r->Ok_0.parts.username@ == f.1
            &&& r->Ok_0.parts.password@ == spec_opt_or_empty(f.2)
            &&& r->Ok_0.parts.hostname@ == spec_opt_or_empty(f.3)
            &&& r->Ok_0.parts.port@ == (match f.4 {
                Some(p) => dec_nat(p as nat),
                None => Seq::<char>::empty(),
            })
            &&& r->Ok_0.parts.pathname@ == f.5
            &&& r->Ok_0.parts.search@ == spec_opt_or_empty(f.6)
            &&& r->Ok_0.parts.hash@ == spec_opt_or_empty(f.7)
            &&& params_match(r->Ok_0.params@, spec_url_params(f.6))
        },
{
    let raw = match url_parse_raw(url) {
        Ok(raw) => raw,
        Err(e) => {
            return Err(prefix_msg("Failed to parse URL: ", e.as_str()));
        },
    };
    let params = match &raw.query {
        Some(q) => aggregate_params(q.as_str()),
        None => Vec::new(),
    };
    let parts = UrlParts {
        protocol: raw.scheme,
        username: raw.username,
        password: match raw.password {
            Some(p) => p,
            None => String::new(),
        },
        hostname: match raw.host {
            Some(h) => h,
            None => String::new(),
        },
        port: match raw.port {
            Some(p) => u64_to_string(p as u64),
            None => String::new(),
        },
        pathname: raw.path,
        search: match raw.query {
            Some(q) => q,
            None => String::new(),
        },
        hash: match raw.fragment {
            Some(h) => h,
            None => String::new(),
        },
    };
    Ok(ParsedUrlResult { parts, params })
}


/// Whether `s` ends with the suffix `p`.
pub open spec fn spec_ends_with(s: Seq<char>, p: Seq<char>) -> bool {
    s.len() >= p.len() && s.subrange(s.len() - p.len(), s.len() as int) == p
}

/// The scheme piece: the protocol, with `://` appended unless already
/// there.
pub open spec fn spec_scheme_part(protocol: Seq<char>) -> Seq<char> {
    if spec_ends_with(protocol, "://"@) {
        protocol
    } else {
        protocol + "://"@
    }
}

/// The credentials piece: empty without a username; otherwise the escaped
/// username, an escaped password after a colon when present, and `@`.
pub open spec fn spec_cred_part(username: Seq<char>, password: Seq<char>) -> Seq<char> {
    if username.len() == 0 {
        Seq::empty()
    } else if password.len() == 0 {
        pct_enc_of(encode_utf8(username)) + seq!['@']
    } else {
        pct_enc_of(encode_utf8(username)) + seq![':'] + pct_enc_of(encode_utf8(password))
            + seq!['@']
    }
}

/// The port piece: empty, or a colon and the port text.
pub open spec fn spec_port_part(port: Seq<char>) -> Seq<char> {
    if port.len() == 0 {
        Seq::empty()
    } else {
        seq![':'] + port
    }
}

/// The path piece: empty, or the path with a leading slash supplied when
/// missing.
pub open spec fn spec_path_part(pathname: Seq<char>) -> Seq<char> {
    if pathname.len() == 0 {
        Seq::empty()
    } else if pathname[0] == '/' {
        pathname
    } else {
        seq!['/'] + pathname
    }
}

/// The fragment piece: empty, or `#` and the fragment with one leading
/// `#` of its own removed.
pub open spec fn spec_hash_part(hash: Seq<char>) -> Seq<char> {
    if hash.len() == 0 {
        Seq::empty()
    } else if hash[0] == '#' {
        seq!['#'] + hash.skip(1)
    } else {
        seq!['#'] + hash
    }
}

/// One non-empty trimmed line of the search box, percent-escaped: a bare
/// key, or `key=value` with both sides escaped.
pub open spec fn spec_query_piece(t: Seq<char>) -> Seq<char> {
    let e = find_sep(t, '=');
    if e == -1 {
        pct_enc_of(encode_utf8(t))
    } else {
        pct_enc_of(encode_utf8(t.take(e))) + seq!['='] + pct_enc_of(encode_utf8(t.skip(e + 1)))
    }
}

/// The escaped pieces of the search lines, blank lines skipped.
pub open spec fn spec_query_pieces(segs: Seq<Seq<char>>) -> Seq<Seq<char>>
    decreases segs.len(),
{
    if segs.len() == 0 {
        Seq::empty()
    } else {
        let rest = spec_query_pieces(segs.drop_last());
        let t = spec_trim(segs.last());
        if t.len() == 0 {
            rest
        } else {
            rest.push(spec_query_piece(t))
        }
    }
}

/// The pieces joined with `&`.
pub open spec fn join_amp(l: Seq<Seq<char>>) -> Seq<char>
    decreases l.len(),
{
    if l.len() == 0 {
        Seq::empty()
    } else if l.len() == 1 {
        l[0]
    } else {
        join_amp(l.drop_last()) + seq!['&'] + l.last()
    }
}

/// The query piece: empty without search text, else `?` and the joined
/// escaped lines.
pub open spec fn spec_search_part(search: Seq<char>) -> Seq<char> {
    if search.len() == 0 {
        Seq::empty()
    } else {
        seq!['?'] + join_amp(spec_query_pieces(spec_split(search, '\n')))
    }
}

/// The URL text assembled from the given parts.
pub open spec fn spec_built_url(parts: UrlParts) -> Seq<char> {
    spec_scheme_part(parts.protocol@) + spec_cred_part(parts.username@, parts.password@)
        + parts.hostname@ + spec_port_part(parts.port@) + spec_path_part(parts.pathname@)
        + spec_search_part(parts.search@) + spec_hash_part(parts.hash@)
}

fn ends_with_scheme_sep(s: &str) -> (r: bool)
    ensures
        r == spec_ends_with(s@, "://"@),
{
    proof {
        reveal_strlit("://");
    }
    let len = s.unicode_len();
    if len >= 3 && s.get_char(len - 3) == ':' && s.get_char(len - 2) == '/' && s.get_char(len - 1)
        == '/' {
        proof {
            assert(s@.subrange(s@.len() - 3, s@.len() as int) =~= "://"@);
        }
        true
    } else {
        proof {
            if s@.len() >= 3 && s@.subrange(s@.len() - 3, s@.len() as int) == "://"@ {
                let tail = s@.subrange(s@.len() - 3, s@.len() as int);
                assert(s@[s@.len() - 3] == tail[0]);
                assert(s@[s@.len() - 2] == tail[1]);
                assert(s@[s@.len() - 1] == tail[2]);
            }
        }
        false
    }
}

fn search_pieces(search: &str) -> (r: Vec<String>)
    ensures
        r.deep_view() == spec_query_pieces(spec_split(search@, '\n')),
{
    let lines = split_char(search, '\n');
    let ghost lines_view = lines.deep_view();
    let mut pieces: Vec<String> = Vec::new();
    let mut i: usize = 0;
    proof {
        assert(lines_view.take(0) =~= Seq::<Seq<char>>::empty());
        assert(pieces.deep_view() =~= spec_query_pieces(lines_view.take(0)));
    }
    while i < lines.len()
        invariant
            lines_view == lines.deep_view(),
            lines@.len() == lines_view.len(),
            i <= lines@.len(),
            forall|j: int| 0 <= j < lines@.len() ==> (#[trigger] lines@[j])@ == lines_view[j],
            pieces.deep_view() == spec_query_pieces(lines_view.take(i as int)),
        decreases lines@.len() - i,
    {
        let ghost pieces_before = pieces.deep_view();
        let line = trim_ws(lines[i].as_str());
        let line_len = line.unicode_len();
        if line_len > 0 {
            let piece = match find_char(line, '=') {
                None => pct_encode(line.as_bytes()),
                Some(e) => {
                    let key = line.substring_char(0, e);
                    let value = line.substring_char(e + 1, line_len);
                    let mut p = pct_encode(key.as_bytes());
                    p.append("=");
                    p.append(pct_encode(value.as_bytes()).as_str());
                    proof {
                        reveal_strlit("=");
                        assert(p@ =~= spec_query_piece(line@));
                    }
                    p
                },
            };
            let ghost piece_view = piece@;
            pieces.push(piece);
            proof {
                assert(pieces.deep_view() =~= pieces_before.push(piece_view));
            }
        }
        proof {
            assert(lines_view.take(i + 1).drop_last() =~= lines_view.take(i as int));
            assert(lines_view.take(i + 1).last() == lines_view[i as int]);
            assert(pieces.deep_view() =~= spec_query_pieces(lines_view.take(i + 1)));
        }
        i = i + 1;
    }
    proof {
        assert(lines_view.take(lines_view.len() as int) =~= lines_view);
    }
    pieces
}

fn join_pieces(pieces: &Vec<String>) -> (r: String)
    ensures
        r@ == join_amp(pieces.deep_view()),
{
    let ghost pieces_view = pieces.deep_view();
    let mut out = String::new();
    let mut i: usize = 0;
    proof {
        assert(pieces_view.take(0) =~= Seq::<Seq<char>>::empty());
    }
    while i < pieces.len()
        invariant
            pieces_view == pieces.deep_view(),
            pieces@.len() == pieces_view.len(),
            i <= pieces@.len(),
            forall|j: int| 0 <= j < pieces@.len() ==> (#[trigger] pieces@[j])@ == pieces_view[j],
            out@ == join_amp(pieces_view.take(i as int)),
        decreases pieces@.len() - i,
    {
        if i > 0 {
            out.append("&");
        }
        out.append(pieces[i].as_str());
        proof {
            reveal_strlit("&");
            assert(pieces_view.take(i + 1).drop_last() =~= pieces_view.take(i as int));
            assert(pieces_view.take(i + 1).last() == pieces_view[i as int]);
            if i > 0 {
                assert(out@ =~= join_amp(pieces_view.take(i + 1)));
            } else {
                assert(pieces_view.take(1).len() == 1);
                assert(out@ =~= join_amp(pieces_view.take(i + 1)));
            }
        }
        i = i + 1;
    }
    proof {
        assert(pieces_view.take(pieces_view.len() as int) =~= pieces_view);
    }
    out
}

/// Assembles a URL from parts: protocol and hostname are required,
/// credentials and search lines are percent-escaped, and the result is
/// accepted only if it parses back as a URL.
#[verifier::rlimit(100)]
pub fn build_url(parts: UrlParts) -> (r: Result<String, String>)
    ensures
        parts.protocol@.len() == 0 ==> r is Err && r->Err_0@ == "Protocol is required"@,
        parts.protocol@.len() > 0 && parts.hostname@.len() == 0 ==> r is Err && r->Err_0@
            == "Hostname is required"@,
        parts.protocol@.len() > 0 && parts.hostname@.len() > 0 ==> {
            &&& r is Ok <==> url_fields_of(spec_built_url(parts)) is Some
            &&& r is Ok ==> r->Ok_0@ == spec_built_url(parts)
            &&& r is Err ==> spec_starts_with(r->Err_0@, "Invalid URL: "@)
        },
{
    if parts.protocol.as_str().unicode_len() == 0 {
        return Err(String::from_str("Protocol is required"));
    }
    if parts.hostname.as_str().unicode_len() == 0 {
        return Err(String::from_str("Hostname is required"));
    }
    let mut url = parts.protocol.clone();
    if !ends_with_scheme_sep(parts.protocol.as_str()) {
        url.append("://");
    }
    proof {
        reveal_strlit("://");
        assert(url@ =~= spec_scheme_part(parts.protocol@));
    }
    let ghost scheme_done = url@;
    if parts.username.as_str().unicode_len() > 0 {
        url.append(pct_encode(parts.username.as_str().as_bytes()).as_str());
        if parts.password.as_str().unicode_len() > 0 {
            url.append(":");
            url.append(pct_encode(parts.password.as_str().as_bytes()).as_str());
        }
        url.append("@");
    }
    proof {
        reveal_strlit(":");
        reveal_strlit("@");
        assert(url@ =~= scheme_done + spec_cred_part(parts.username@, parts.password@));
    }
    let ghost cred_done = url@;
    url.append(parts.hostname.as_str());
    if parts.port.as_str().unicode_len() > 0 {
        url.append(":");
        url.append(parts.port.as_str());
    }
    proof {
        reveal_strlit(":");
        assert(url@ =~= cred_done + parts.hostname@ + spec_port_part(parts.port@));
    }
    let ghost port_done = url@;
    let path_len = parts.pathname.as_str().unicode_len();
    if path_len > 0 {
        if parts.pathname.as_str().get_char(0) != '/' {
            url.append("/");
        }
        url.append(parts.pathname.as_str());
    }
    proof {
        reveal_strlit("/");
        assert(url@ =~= port_done + spec_path_part(parts.pathname@));
    }
    let ghost path_done = url@;
    if parts.search.as_str().unicode_len() > 0 {
        url.append("?");
        let pieces = search_pieces(parts.search.as_str());
        url.append(join_pieces(&pieces).as_str());
    }
    proof {
        reveal_strlit("?");
        assert(url@ =~= path_done + spec_search_part(parts.search@));
    }
    let ghost search_done = url@;
    let hash_len = parts.hash.as_str().unicode_len();
    if hash_len > 0 {
        url.append("#");
        if parts.hash.as_str().get_char(0) == '#' {
            url.append(parts.hash.as_str().substring_char(1, hash_len));
        } else {
            url.append(parts.hash.as_str());
        }
    }
    proof {
        reveal_strlit("#");
        assert(parts.hash@.len() > 0 && parts.hash@[0] == '#' ==> parts.hash@.subrange(
            1,
            parts.hash@.len() as int,
        ) =~= parts.hash@.skip(1));
        assert(url@ =~= search_done + spec_hash_part(parts.hash@));
        assert(url@ =~= spec_built_url(parts));
    }
    match url_parse_raw(url.as_str()) {
        Ok(_) => Ok(url),
        Err(e) => Err(prefix_msg("Invalid URL: ", e.as_str())),
    }
}

} // verus!
