//! Algorithm registry: the closed set of supported JWT signing algorithms
//! and the key-material family (shared secret or RSA keypair) of each.

use vstd::prelude::*;

use crate::strutil::prefix_msg;
use crate::strutil::str_eq;

verus! {

/// The six supported signing algorithms.
#[derive(Clone, Copy, PartialEq, Eq, Structural, Debug)]
pub enum AlgorithmId {
    HS256,
    HS384,
    HS512,
    RS256,
    RS384,
    RS512,
}

/// The two key-material families: HS* algorithms use a shared secret,
/// RS* algorithms use an RSA keypair.
#[derive(Clone, Copy, PartialEq, Eq, Structural, Debug)]
pub enum AlgorithmFamily {
    Symmetric,
    Asymmetric,
}

impl AlgorithmId {
    /// The algorithm's standard name, as a sequence of characters.
    pub open spec fn spec_name(self) -> Seq<char> {
        match self {
            AlgorithmId::HS256 => "HS256"@,
            AlgorithmId::HS384 => "HS384"@,
            AlgorithmId::HS512 => "HS512"@,
            AlgorithmId::RS256 => "RS256"@,
            AlgorithmId::RS384 => "RS384"@,
            AlgorithmId::RS512 => "RS512"@,
        }
    }

    /// The algorithm's key-material family.
    pub open spec fn spec_family(self) -> AlgorithmFamily {
        match self {
            AlgorithmId::HS256 | AlgorithmId::HS384 | AlgorithmId::HS512 => AlgorithmFamily::Symmetric,
            AlgorithmId::RS256 | AlgorithmId::RS384 | AlgorithmId::RS512 => AlgorithmFamily::Asymmetric,
        }
    }

    /// The algorithm's standard name.
    pub fn name(&self) -> (r: &'static str)
        ensures
            r@ == self.spec_name(),
    {
        match self {
            AlgorithmId::HS256 => "HS256",
            AlgorithmId::HS384 => "HS384",
            AlgorithmId::HS512 => "HS512",
            AlgorithmId::RS256 => "RS256",
            AlgorithmId::RS384 => "RS384",
            AlgorithmId::RS512 => "RS512",
        }
    }
}

/// What `resolve` returns on each name: the matching algorithm, or `None`
/// for any string outside the closed six-member set.
pub open spec fn spec_resolve(name: Seq<char>) -> Option<AlgorithmId> {
    if name == "HS256"@ {
        Some(AlgorithmId::HS256)
    } else if name == "HS384"@ {
        Some(AlgorithmId::HS384)
    } else if name == "HS512"@ {
        Some(AlgorithmId::HS512)
    } else if name == "RS256"@ {
        Some(AlgorithmId::RS256)
    } else if name == "RS384"@ {
        Some(AlgorithmId::RS384)
    } else if name == "RS512"@ {
        Some(AlgorithmId::RS512)
    } else {
        None
    }
}

/// Resolves an algorithm name by exact, case-sensitive match against the
/// closed enumeration; every other string is rejected with the name echoed
/// back in the error.
pub fn resolve(name: &str) -> (r: Result<AlgorithmId, String>)
    ensures
        spec_resolve(name@) matches Some(alg) ==> r == Ok::<AlgorithmId, String>(alg),
        spec_resolve(name@) is None ==> r is Err && r->Err_0@ == "Unsupported algorithm: "@
            + name@,
{
    if str_eq(name, "HS256") {
        Ok(AlgorithmId::HS256)
    } else if str_eq(name, "HS384") {
        Ok(AlgorithmId::HS384)
    } else if str_eq(name, "HS512") {
        Ok(AlgorithmId::HS512)
    } else if str_eq(name, "RS256") {
        Ok(AlgorithmId::RS256)
    } else if str_eq(name, "RS384") {
        Ok(AlgorithmId::RS384)
    } else if str_eq(name, "RS512") {
        Ok(AlgorithmId::RS512)
    } else {
        Err(prefix_msg("Unsupported algorithm: ", name))
    }
}

/// The key-material family of an algorithm: shared secret for HS*,
/// RSA keypair for RS*.
pub fn family_of(alg: AlgorithmId) -> (r: AlgorithmFamily)
    ensures
        r == alg.spec_family(),
{
    match alg {
        AlgorithmId::HS256 | AlgorithmId::HS384 | AlgorithmId::HS512 => AlgorithmFamily::Symmetric,
        AlgorithmId::RS256 | AlgorithmId::RS384 | AlgorithmId::RS512 => AlgorithmFamily::Asymmetric,
    }
}

} // verus!
