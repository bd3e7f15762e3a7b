//! The request headers every call to the remote platform carries. Building
//! the HTTP client that sends them is the boundary's work.

use vstd::prelude::*;
use vstd::string::StringExecFns;

verus! {

/// The user agent every request identifies itself with.
pub fn user_agent() -> (r: String)
    ensures
        r@ == "chatterino-macos-artifact-builder 0.1.0"@,
{
    String::from_str("chatterino-macos-artifact-builder 0.1.0")
}

/// The media type every request accepts.
pub fn accept_value() -> (r: String)
    ensures
        r@ == "application/vnd.github+json"@,
{
    String::from_str("application/vnd.github+json")
}

/// The bearer credential built from the configured token.
pub fn authorization_value(token: &str) -> (r: String)
    ensures
        r@ == "Bearer "@ + token@,
{
    String::from_str("Bearer ").concat(token)
}

} // verus!
