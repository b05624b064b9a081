//! The legacy signing interface, kept for callers that still name it.

use vstd::prelude::*;
use vstd::string::StringExecFns;

verus! {

/// The header values of the legacy flows.
#[derive(Debug, Clone)]
pub struct SignatureResult {
    pub x_s: String,
    pub x_t: i64,
    pub x_s_common: String,
}

/// The request that a legacy signature was asked for.
#[derive(Debug)]
pub struct RequestDetails<'a> {
    pub url: &'a str,
    pub method: &'a str,
    pub body: Option<&'a str>,
}

/// Why no legacy signature is generated.
#[derive(Debug, Clone, Copy, PartialEq, Eq, Structural)]
pub enum LegacySignError {
    /// Signatures are no longer generated in this process: they come from the
    /// signing collaborator or from the store.
    Deprecated,
}

impl LegacySignError {
    /// The error in words.
    pub fn message(self) -> (r: String)
        ensures
            r@ == "Legacy signature generation is deprecated. Use stored credentials from MongoDB."@,
    {
        String::from_str(
            "Legacy signature generation is deprecated. Use stored credentials from MongoDB.",
        )
    }
}

/// Generates nothing: signatures are no longer generated in this process.
pub fn generate_signature(details: &RequestDetails<'_>) -> (r: Result<
    (String, i64, String, String),
    LegacySignError,
>)
    ensures
        r == Err::<(String, i64, String, String), LegacySignError>(LegacySignError::Deprecated),
{
    Err(LegacySignError::Deprecated)
}

} // verus!
