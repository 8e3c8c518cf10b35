//! What this build can do, and which clients can use it.

use vstd::prelude::*;
use crate::text::{has_prefix, starts_with, strings_view};

verus! {

/// The names of what this build can do.
pub open spec fn capability_names() -> Seq<Seq<char>> {
    seq!["analyze"@, "python"@, "typescript"@, "javascript"@, "rust"@, "deep-mode"@]
}

/// What this build can do: analysis, the four languages, and Deep Mode.
pub fn capabilities() -> (r: Vec<String>)
    ensures
        strings_view(r@) == capability_names(),
{
    let mut caps: Vec<String> = Vec::new();
    caps.push("analyze".to_owned());
    caps.push("python".to_owned());
    caps.push("typescript".to_owned());
    caps.push("javascript".to_owned());
    caps.push("rust".to_owned());
    caps.push("deep-mode".to_owned());
    caps
}

/// Whether a client of this version can use this build: whether the version
/// begins with `0.1.`.
pub fn check_compatibility(client_version: &str) -> (r: bool)
    ensures
        r == has_prefix(client_version@, "0.1."@),
{
    starts_with(client_version, "0.1.")
}

} // verus!
