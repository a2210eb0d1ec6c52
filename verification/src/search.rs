//! Data model of the search provider's answer: one immutable record per
//! repository found, and the shape of a whole response. The network call
//! itself lives outside the library and hands back plain values of these
//! types.

use vstd::prelude::*;

verus! {

/// One search hit. `html_url` is the stable identifier the selection set is
/// keyed by; the record is never mutated after the provider produced it.
#[derive(Debug, Clone)]
pub struct Repo {
    pub name: String,
    pub description: Option<String>,
    pub stargazers_count: u64,
    pub forks_count: u64,
    pub html_url: String,
}

/// The search provider's whole answer: how many hits exist, whether the
/// list was cut short, and the ordered hits themselves.
#[derive(Debug, Clone)]
pub struct SearchResult {
    pub total_count: u64,
    pub incomplete_results: bool,
    pub items: Vec<Repo>,
}

} // verus!
