//! A verified developer-utility library: a JWT toolkit (decode, encode,
//! verify, key and secret generation) together with small hashing, URL,
//! regex and UUID helpers.
//!
//! The JWT core works over the compact serialization: three dot-separated
//! base64url-without-padding segments (header, payload, signature).
//! Cryptographic primitives, JSON object handling and randomness are
//! delegated to outside crates behind trusted declarations; everything
//! around them — the token codec, the algorithm registry, the key-loading
//! strategy, the claims validation and the verification state machine —
//! is verified.

pub mod algs;
pub mod claims;
pub mod encode;
pub mod encoding;
pub mod generate;
pub mod hashing;
pub mod hexfmt;
pub mod jsonobj;
pub mod keys;
pub mod laws;
pub mod regex_tester;
pub mod rsakeys;
pub mod sigcrypto;
pub mod strutil;
pub mod url_tools;
pub mod timefmt;
pub mod uuid_generator;
pub mod token;
pub mod verify;

pub use algs::AlgorithmFamily;
pub use algs::AlgorithmId;
pub use algs::family_of;
pub use algs::resolve;
pub use encode::encode_jwt;
pub use generate::KeyPair;
pub use generate::generate_jwt_secret;
pub use generate::generate_rsa_keypair;
pub use regex_tester::RegexMatch;
pub use regex_tester::ReplaceResult;
pub use regex_tester::TestResult;
pub use regex_tester::replace_regex;
pub use regex_tester::test_regex;
pub use hashing::hash_bytes_digests;
pub use hashing::hash_string_digests;
pub use token::JwtParts;
pub use token::decode_header_segment;
pub use token::decode_jwt;
pub use verify::VerifyResult;
pub use verify::verify_jwt;
pub use url_tools::ParsedUrlResult;
pub use url_tools::build_url;
pub use url_tools::UrlParamValue;
pub use url_tools::UrlParts;
pub use url_tools::parse_url;
pub use url_tools::process_url_encode_decode;
pub use uuid_generator::GenerateOptions;
pub use uuid_generator::ParsedUuid;
pub use uuid_generator::generate_uuids;
pub use uuid_generator::parse_uuid;
