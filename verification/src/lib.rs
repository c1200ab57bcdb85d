//! Minimal client library for a remote database's HTTP query endpoint:
//! a configuration builder, derivation of the HTTP Basic-Auth header from
//! the configured credentials, and the wire-level shape of a single
//! authenticated POST request carrying a query string.

use vstd::prelude::*;

pub mod client;
pub mod encoding;

verus! {

/// The library's semantic version, as a sequence of characters.
pub open spec fn version_spec() -> Seq<char> {
    "0.1.0"@
}

/// Returns the library's semantic version string, used to build the
/// user-agent header of every request.
pub fn version() -> (r: &'static str)
    ensures
        r@ == version_spec(),
{
    "0.1.0"
}

} // verus!
