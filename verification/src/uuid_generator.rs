//! UUID tools: parsing a UUID into its presentation fields, and batch
//! generation in a choice of text formats.
//!
//! The uuid crate parses text into the 16 raw bytes and generates fresh
//! values; everything read out of the bytes — version number, variant
//! bits, hyphenated and compact hex forms — is computed and verified here.

use vstd::prelude::*;
use vstd::string::StrSliceExecFns;
use vstd::string::StringExecFns;

use crate::hexfmt::bytes_to_hex;
use crate::hexfmt::hex_of;
use crate::hexfmt::lemma_hex_of_concat;
use crate::hexfmt::lemma_hex_of_len;
use crate::strutil::dec_nat;
use crate::strutil::prefix_msg;
use crate::strutil::spec_starts_with;
use crate::strutil::spec_trim;
use crate::strutil::str_eq;
use crate::strutil::trim_ws;
use crate::strutil::u64_to_string;

verus! {

/// The parse of a UUID text: presentation fields derived from the 16 raw
/// bytes.
#[derive(Debug)]
pub struct ParsedUuid {
    pub is_valid: bool,
    pub standard_format: String,
    pub raw_contents: String,
    pub version: String,
    pub variant: String,
    pub error_message: Option<String>,
}

/// Options for batch generation: the text format and how many values.
#[derive(Debug)]
pub struct GenerateOptions {
    pub format: String,
    pub count: usize,
}

/// What `Uuid::parse_str` accepts and returns: the 16 bytes, or `None` on
/// text that is not a UUID in any accepted form.
pub uninterp spec fn uuid_bytes_of(s: Seq<char>) -> Option<Seq<u8>>;

/// What a version-3 (MD5, DNS namespace) UUID's bytes are for a name.
pub uninterp spec fn uuidv3_dns_of(name: Seq<u8>) -> Seq<u8>;

/// What a version-5 (SHA-1, DNS namespace) UUID's bytes are for a name.
pub uninterp spec fn uuidv5_dns_of(name: Seq<u8>) -> Seq<u8>;

/// Relies on `uuid::Uuid::parse_str` (after trimming by the caller): on
/// success the 16 bytes of the value.
#[verifier::external_body]
fn uuid_parse_bytes(s: &str) -> (r: Result<Vec<u8>, String>)
    ensures
        r is Ok <==> uuid_bytes_of(s@) is Some,
        r is Ok ==> Some(r->Ok_0@) == uuid_bytes_of(s@) && r->Ok_0@.len() == 16,
{
    match uuid::Uuid::parse_str(s) {
        Ok(u) => Ok(u.as_bytes().to_vec()),
        Err(e) => Err(format!("{}", e)),
    }
}

/// Relies on `uuid::Uuid::new_v1` with a fixed six-byte node id: a
/// time-based value, so nothing relates two calls; every result is 16
/// bytes carrying version 1 and the RFC 4122 variant.
#[verifier::external_body]
fn uuid_v1_bytes() -> (r: Vec<u8>)
    ensures
        r@.len() == 16,
        r@[6] / 16 == 1,
        r@[8] / 32 == 4 || r@[8] / 32 == 5,
{
    let node_id: [u8; 6] = [1, 2, 3, 4, 5, 6];
    uuid::Uuid::new_v1(uuid::Timestamp::now(uuid::NoContext), &node_id).as_bytes().to_vec()
}

/// Relies on `uuid::Uuid::new_v3` with the DNS namespace: an MD5-based
/// value, a function of the name alone, 16 bytes carrying version 3 and
/// the RFC 4122 variant.
#[verifier::external_body]
fn uuid_v3_dns_bytes(name: &[u8]) -> (r: Vec<u8>)
    ensures
        r@ == uuidv3_dns_of(name@),
        r@.len() == 16,
        r@[6] / 16 == 3,
        r@[8] / 32 == 4 || r@[8] / 32 == 5,
{
    uuid::Uuid::new_v3(&uuid::Uuid::NAMESPACE_DNS, name).as_bytes().to_vec()
}

/// Relies on `uuid::Uuid::new_v4`: a random value, so nothing relates two
/// calls; every result is 16 bytes carrying version 4 and the RFC 4122
/// variant.
#[verifier::external_body]
fn uuid_v4_bytes() -> (r: Vec<u8>)
    ensures
        r@.len() == 16,
        r@[6] / 16 == 4,
        r@[8] / 32 == 4 || r@[8] / 32 == 5,
{
    uuid::Uuid::new_v4().as_bytes().to_vec()
}

/// Relies on `uuid::Uuid::new_v5` with the DNS namespace: a SHA-1-based
/// value, a function of the name alone, 16 bytes carrying version 5 and
/// the RFC 4122 variant.
#[verifier::external_body]
fn uuid_v5_dns_bytes(name: &[u8]) -> (r: Vec<u8>)
    ensures
        r@ == uuidv5_dns_of(name@),
        r@.len() == 16,
        r@[6] / 16 == 5,
        r@[8] / 32 == 4 || r@[8] / 32 == 5,
{
    uuid::Uuid::new_v5(&uuid::Uuid::NAMESPACE_DNS, name).as_bytes().to_vec()
}

/// Whether all sixteen bytes are zero: the nil UUID.
pub open spec fn spec_is_nil(b: Seq<u8>) -> bool {
    forall|i: int| 0 <= i < b.len() ==> b[i] == 0
}

/// The version label shown for a parsed UUID: the well-known versions get
/// their names, everything else shows the raw version number. `Nil` is
/// shown only for the all-zero value.
pub open spec fn spec_version_label(b: Seq<u8>) -> Seq<char> {
    let num = b[6] as int / 16;
    if num == 0 && spec_is_nil(b) {
        "Nil"@
    } else if num == 1 {
        "1 (MAC address)"@
    } else if num == 3 {
        "3 (MD5)"@
    } else if num == 4 {
        "4 (random)"@
    } else if num == 5 {
        "5 (SHA-1)"@
    } else if num == 7 {
        "7 (sortable random)"@
    } else {
        "Version "@ + dec_nat(num as nat)
    }
}

/// The variant label, read from the top bits of byte eight per RFC 4122.
pub open spec fn spec_variant_label(b: Seq<u8>) -> Seq<char> {
    let v = b[8] as int / 32;
    if v <= 3 {
        "NCS"@
    } else if v <= 5 {
        "Standard (DCE 1.1, ISO/IEC 11578:1996)"@
    } else if v == 6 {
        "Microsoft"@
    } else {
        "Future"@
    }
}

fn is_nil_bytes(b: &[u8]) -> (r: bool)
    ensures
        r == spec_is_nil(b@),
{
    let mut i: usize = 0;
    while i < b.len()
        invariant
            i <= b@.len(),
            forall|j: int| 0 <= j < i ==> b@[j] == 0,
        decreases b@.len() - i,
    {
        if b[i] != 0 {
            return false;
        }
        i = i + 1;
    }
    true
}

fn version_label(b: &[u8]) -> (r: String)
    requires
        b@.len() == 16,
    ensures
        r@ == spec_version_label(b@),
{
    let num = b[6] / 16;
    if num == 0 && is_nil_bytes(b) {
        String::from_str("Nil")
    } else if num == 1 {
        String::from_str("1 (MAC address)")
    } else if num == 3 {
        String::from_str("3 (MD5)")
    } else if num == 4 {
        String::from_str("4 (random)")
    } else if num == 5 {
        String::from_str("5 (SHA-1)")
    } else if num == 7 {
        String::from_str("7 (sortable random)")
    } else {
        prefix_msg("Version ", u64_to_string(num as u64).as_str())
    }
}

fn variant_label(b: &[u8]) -> (r: String)
    requires
        b@.len() == 16,
    ensures
        r@ == spec_variant_label(b@),
{
    let v = b[8] / 32;
    if v <= 3 {
        String::from_str("NCS")
    } else if v <= 5 {
        String::from_str("Standard (DCE 1.1, ISO/IEC 11578:1996)")
    } else if v == 6 {
        String::from_str("Microsoft")
    } else {
        String::from_str("Future")
    }
}

/// The 8-4-4-4-12 hyphenated text of sixteen bytes, in the given case.
pub open spec fn spec_uuid_hyphenated(b: Seq<u8>, upper: bool) -> Seq<char> {
    hex_of(b.subrange(0, 4), upper) + seq!['-'] + hex_of(b.subrange(4, 6), upper) + seq!['-']
        + hex_of(b.subrange(6, 8), upper) + seq!['-'] + hex_of(b.subrange(8, 10), upper)
        + seq!['-'] + hex_of(b.subrange(10, 16), upper)
}

fn uuid_hyphenated(b: &[u8], upper: bool) -> (r: String)
    requires
        b@.len() == 16,
    ensures
        r@ == spec_uuid_hyphenated(b@, upper),
{
    let h = bytes_to_hex(b, upper);
    proof {
        lemma_hex_of_len(b@, upper);
        lemma_hex_of_concat(b@.subrange(0, 4), b@.subrange(4, 16), upper);
        lemma_hex_of_concat(b@.subrange(4, 6), b@.subrange(6, 16), upper);
        lemma_hex_of_concat(b@.subrange(6, 8), b@.subrange(8, 16), upper);
        lemma_hex_of_concat(b@.subrange(8, 10), b@.subrange(10, 16), upper);
        lemma_hex_of_len(b@.subrange(0, 4), upper);
        lemma_hex_of_len(b@.subrange(4, 6), upper);
        lemma_hex_of_len(b@.subrange(6, 8), upper);
        lemma_hex_of_len(b@.subrange(8, 10), upper);
        lemma_hex_of_len(b@.subrange(10, 16), upper);
        assert(b@ =~= b@.subrange(0, 4) + b@.subrange(4, 16));
        assert(b@.subrange(4, 16) =~= b@.subrange(4, 6) + b@.subrange(6, 16));
        assert(b@.subrange(6, 16) =~= b@.subrange(6, 8) + b@.subrange(8, 16));
        assert(b@.subrange(8, 16) =~= b@.subrange(8, 10) + b@.subrange(10, 16));
        assert(h@ =~= hex_of(b@.subrange(0, 4), upper) + hex_of(b@.subrange(4, 6), upper) + hex_of(
            b@.subrange(6, 8),
            upper,
        ) + hex_of(b@.subrange(8, 10), upper) + hex_of(b@.subrange(10, 16), upper));
    }
    let mut out = String::from_str(h.as_str().substring_char(0, 8));
    out.append("-");
    out.append(h.as_str().substring_char(8, 12));
    out.append("-");
    out.append(h.as_str().substring_char(12, 16));
    out.append("-");
    out.append(h.as_str().substring_char(16, 20));
    out.append("-");
    out.append(h.as_str().substring_char(20, 32));
    proof {
        reveal_strlit("-");
        assert(h@.subrange(0, 8) =~= hex_of(b@.subrange(0, 4), upper));
        assert(h@.subrange(8, 12) =~= hex_of(b@.subrange(4, 6), upper));
        assert(h@.subrange(12, 16) =~= hex_of(b@.subrange(6, 8), upper));
        assert(h@.subrange(16, 20) =~= hex_of(b@.subrange(8, 10), upper));
        assert(h@.subrange(20, 32) =~= hex_of(b@.subrange(10, 16), upper));
        assert(out@ =~= spec_uuid_hyphenated(b@, upper));
    }
    out
}

/// The text a format option yields for sixteen bytes: compact hex, with
/// or without hyphens, in either case; unknown options mean the standard
/// hyphenated lower-case form.
pub open spec fn spec_format_uuid(b: Seq<u8>, format: Seq<char>) -> Seq<char> {
    if format == "no-hyphens"@ {
        hex_of(b, false)
    } else if format == "uppercase"@ {
        spec_uuid_hyphenated(b, true)
    } else if format == "uppercase-no-hyphens"@ {
        hex_of(b, true)
    } else {
        spec_uuid_hyphenated(b, false)
    }
}

fn format_uuid(b: &[u8], format: &str) -> (r: String)
    requires
        b@.len() == 16,
    ensures
        r@ == spec_format_uuid(b@, format@),
{
    if str_eq(format, "no-hyphens") {
        bytes_to_hex(b, false)
    } else if str_eq(format, "uppercase") {
        uuid_hyphenated(b, true)
    } else if str_eq(format, "uppercase-no-hyphens") {
        bytes_to_hex(b, true)
    } else {
        uuid_hyphenated(b, false)
    }
}

/// Parses UUID text (surrounding whitespace ignored) into its
/// presentation: hyphenated and compact lower-case hex forms, and the
/// version and variant labels read from the raw bytes.
pub fn parse_uuid(uuid: String) -> (r: Result<ParsedUuid, String>)
    ensures
        r is Ok <==> uuid_bytes_of(spec_trim(uuid@)) is Some,
        r is Err ==> spec_starts_with(r->Err_0@, "Invalid UUID: "@),
        r is Ok ==> {
            let b = uuid_bytes_of(spec_trim(uuid@))->Some_0;
            &&& r->Ok_0.is_valid
            &&& r->Ok_0.standard_format@ == spec_uuid_hyphenated(b, false)
            &&& r->Ok_0.raw_contents@ == hex_of(b, false)
            &&& r->Ok_0.version@ == spec_version_label(b)
            &&& r->Ok_0.variant@ == spec_variant_label(b)
            &&& r->Ok_0.error_message is None
        },
{
    let trimmed = trim_ws(uuid.as_str());
    match uuid_parse_bytes(trimmed) {
        Ok(bytes) => Ok(
            ParsedUuid {
                is_valid: true,
                standard_format: uuid_hyphenated(bytes.as_slice(), false),
                raw_contents: bytes_to_hex(bytes.as_slice(), false),
                version: version_label(bytes.as_slice()),
                variant: variant_label(bytes.as_slice()),
                error_message: None,
            },
        ),
        Err(e) => Err(prefix_msg("Invalid UUID: ", e.as_str())),
    }
}

/// The text length a format option yields: 32 hex characters, plus four
/// hyphens in the hyphenated forms.
pub open spec fn spec_format_uuid_len(format: Seq<char>) -> nat {
    if format == "no-hyphens"@ || format == "uppercase-no-hyphens"@ {
        32
    } else {
        36
    }
}

proof fn lemma_format_uuid_len(b: Seq<u8>, format: Seq<char>)
    requires
        b.len() == 16,
    ensures
        spec_format_uuid(b, format).len() == spec_format_uuid_len(format),
{
    reveal_strlit("no-hyphens");
    reveal_strlit("uppercase");
    reveal_strlit("uppercase-no-hyphens");
    lemma_hex_of_len(b, false);
    lemma_hex_of_len(b, true);
    lemma_hex_of_len(b.subrange(0, 4), false);
    lemma_hex_of_len(b.subrange(4, 6), false);
    lemma_hex_of_len(b.subrange(6, 8), false);
    lemma_hex_of_len(b.subrange(8, 10), false);
    lemma_hex_of_len(b.subrange(10, 16), false);
    lemma_hex_of_len(b.subrange(0, 4), true);
    lemma_hex_of_len(b.subrange(4, 6), true);
    lemma_hex_of_len(b.subrange(6, 8), true);
    lemma_hex_of_len(b.subrange(8, 10), true);
    lemma_hex_of_len(b.subrange(10, 16), true);
    assert(spec_uuid_hyphenated(b, false).len() == 36);
    assert(spec_uuid_hyphenated(b, true).len() == 36);
    assert(hex_of(b, false).len() == 32);
    assert(hex_of(b, true).len() == 32);
    assert("uppercase"@.len() == 9);
    assert("no-hyphens"@.len() == 10);
    assert("uppercase-no-hyphens"@.len() == 20);
    assert("uppercase"@ != "uppercase-no-hyphens"@);
    assert("no-hyphens"@ != "uppercase-no-hyphens"@);
}

/// Generates a batch of UUIDs of the requested version, each rendered in
/// the requested format. Version 3 and 5 values are derived from the fixed
/// DNS example name, so every element is the same known text; versions 1
/// and 4 are fresh per element. The version-7 option approximates with
/// random version-4 values, as the generator has always done.
pub fn generate_uuids(version: String, options: GenerateOptions) -> (r: Result<Vec<String>, String>)
    ensures
        r is Err <==> (options.count > 0 && !(version@ == "v1"@ || version@ == "v3"@ || version@
            == "v4"@ || version@ == "v5"@ || version@ == "v7"@)),
        r is Err ==> r->Err_0@ == "Unsupported UUID version"@,
        r is Ok ==> r->Ok_0@.len() == options.count,
        r is Ok ==> forall|i: int|
            0 <= i < options.count ==> (#[trigger] r->Ok_0@[i])@.len() == spec_format_uuid_len(
                options.format@,
            ),
        version@ == "v3"@ && r is Ok ==> forall|i: int|
            0 <= i < options.count ==> (#[trigger] r->Ok_0@[i])@ == spec_format_uuid(
                uuidv3_dns_of(vstd::utf8::encode_utf8("example.com"@)),
                options.format@,
            ),
        version@ == "v5"@ && r is Ok ==> forall|i: int|
            0 <= i < options.count ==> (#[trigger] r->Ok_0@[i])@ == spec_format_uuid(
                uuidv5_dns_of(vstd::utf8::encode_utf8("example.com"@)),
                options.format@,
            ),
{
    let is_v1 = str_eq(version.as_str(), "v1");
    let is_v3 = str_eq(version.as_str(), "v3");
    let is_v4 = str_eq(version.as_str(), "v4");
    let is_v5 = str_eq(version.as_str(), "v5");
    let is_v7 = str_eq(version.as_str(), "v7");
    if options.count > 0 && !(is_v1 || is_v3 || is_v4 || is_v5 || is_v7) {
        return Err(String::from_str("Unsupported UUID version"));
    }
    let mut results: Vec<String> = Vec::new();
    let mut i: usize = 0;
    while i < options.count
        invariant
            i <= options.count,
            results@.len() == i,
            is_v1 == (version@ == "v1"@),
            is_v3 == (version@ == "v3"@),
            is_v4 == (version@ == "v4"@),
            is_v5 == (version@ == "v5"@),
            is_v7 == (version@ == "v7"@),
            options.count > 0 ==> (is_v1 || is_v3 || is_v4 || is_v5 || is_v7),
            forall|j: int|
                0 <= j < i ==> (#[trigger] results@[j])@.len() == spec_format_uuid_len(
                    options.format@,
                ),
            is_v3 ==> forall|j: int|
                0 <= j < i ==> (#[trigger] results@[j])@ == spec_format_uuid(
                    uuidv3_dns_of(vstd::utf8::encode_utf8("example.com"@)),
                    options.format@,
                ),
            is_v5 ==> forall|j: int|
                0 <= j < i ==> (#[trigger] results@[j])@ == spec_format_uuid(
                    uuidv5_dns_of(vstd::utf8::encode_utf8("example.com"@)),
                    options.format@,
                ),
        decreases options.count - i,
    {
        let bytes: Vec<u8> = if is_v1 {
            uuid_v1_bytes()
        } else if is_v3 {
            uuid_v3_dns_bytes("example.com".as_bytes())
        } else if is_v4 {
            uuid_v4_bytes()
        } else if is_v5 {
            uuid_v5_dns_bytes("example.com".as_bytes())
        } else {
            uuid_v4_bytes()
        };
        let formatted = format_uuid(bytes.as_slice(), options.format.as_str());
        proof {
            reveal_strlit("v1");
            reveal_strlit("v3");
            reveal_strlit("v4");
            reveal_strlit("v5");
            reveal_strlit("v7");
            assert("v1"@[1] == '1' && "v3"@[1] == '3' && "v4"@[1] == '4' && "v5"@[1] == '5'
                && "v7"@[1] == '7');
            lemma_format_uuid_len(bytes@, options.format@);
        }
        let ghost formatted_view = formatted@;
        results.push(formatted);
        proof {
            assert(results@[i as int]@ == formatted_view);
        }
        i = i + 1;
    }
    Ok(results)
}

} // verus!
