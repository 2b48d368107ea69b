use vstd::prelude::*;
use vstd::string::*;

verus! {

/// The version this library reports to the server; kept in step with the package version.
pub const PACKAGE_VERSION: &'static str = "0.1.0";

/// The client identification sent with each request: `Meilisearch Rust (v<version>)`.
pub open spec fn user_agent(version: Seq<char>) -> Seq<char> {
    "Meilisearch Rust (v"@ + version + ")"@
}

/// The client identification for a version, with `unknown` when there is none.
pub fn qualified_version_of(version: Option<&str>) -> (r: String)
    ensures
        r@ == user_agent(
            match version {
                Some(v) => v@,
                None => "unknown"@,
            },
        ),
{
    let shown: &str = match version {
        Some(v) => v,
        None => "unknown",
    };
    let mut r = "Meilisearch Rust (v".to_owned();
    r.append(shown);
    r.append(")");
    r
}

/// The client identification of this library.
pub fn qualified_version() -> (r: String)
    ensures
        r@ == user_agent(PACKAGE_VERSION@),
{
    qualified_version_of(Some(PACKAGE_VERSION))
}

} // verus!
