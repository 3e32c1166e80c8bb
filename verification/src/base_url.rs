//! Resolution of the base URL for downstream API calls.
//!
//! The base URL comes from the `BASE_URL` environment variable when it is
//! set (to any value, including the empty string) and falls back to a
//! built-in default otherwise. Reading the environment is left to the
//! caller; this module holds the resolution rule itself, so that it can be
//! stated and checked for every possible configuration.

use vstd::prelude::*;

verus! {

/// The base URL used when no override is configured.
pub open spec fn default_base_url() -> Seq<char> {
    "https://cursor.v2.wvw.ink/api"@
}

/// The base URL that a given configuration resolves to: the configured
/// value verbatim when one is present (even the empty string), and the
/// built-in default otherwise.
pub open spec fn resolved_base_url(configured: Option<Seq<char>>) -> Seq<char> {
    match configured {
        Some(v) => v,
        None => default_base_url(),
    }
}

/// Resolves the base URL from the value of the `BASE_URL` environment
/// variable, handed in as `configured` (`None` when the variable is unset).
/// A configured value is returned verbatim, with no validation of its
/// shape; an absent one falls back to the built-in default. Resolution is
/// total: it never fails, and absence of the variable is not an error.
pub fn resolve_base_url(configured: Option<String>) -> (r: String)
    ensures
        r@ == resolved_base_url(configured.deep_view()),
        configured is None ==> r@ == default_base_url(),
        configured matches Some(v) ==> r@ == v@,
{
    match configured {
        Some(v) => v,
        None => "https://cursor.v2.wvw.ink/api".to_string(),
    }
}

/// Resolving the base URL twice against an unchanged configuration yields
/// identical results: resolution is a pure function of the configured
/// value, with no caching and no hidden state.
pub proof fn lemma_resolution_repeatable(first: Option<Seq<char>>, second: Option<Seq<char>>)
    requires
        first == second,
    ensures
        resolved_base_url(first) == resolved_base_url(second),
{
}

/// Changing the configured value between two resolutions is observed by
/// the second one: each resolution returns the value set at that moment,
/// never a cached earlier result.
pub proof fn lemma_resolution_uncached(earlier: Seq<char>, later: Seq<char>)
    requires
        earlier != later,
    ensures
        resolved_base_url(Some(later)) == later,
        resolved_base_url(Some(earlier)) != resolved_base_url(Some(later)),
{
}

} // verus!
