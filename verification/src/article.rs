//! Article records as delivered by the remote feed, held as plain values.

use vstd::prelude::*;

verus! {

/// One article of the fetched feed. Immutable once loaded; the index in
/// the loaded list is its identity everywhere else.
#[derive(Debug, Clone, PartialEq)]
pub struct Article {
    pub title: String,
    pub url: String,
    /// May be empty; the view composer shows a placeholder then.
    pub summary: String,
    /// Non-empty; defaulted upstream when the feed omits it.
    pub tag: String,
    /// Non-empty; defaulted upstream when the feed omits it.
    pub source: String,
    /// ISO-8601 timestamp text.
    pub published_at: String,
}

/// Response shape of the feed endpoint: an ordered page of articles.
#[derive(Debug)]
pub struct LatestResponse {
    pub data: Vec<Article>,
}

/// Tag used for articles the feed delivers without one.
pub fn default_tag() -> (r: String)
    ensures
        r@ == "Tech"@,
{
    String::from_str("Tech")
}

/// Source used for articles the feed delivers without one.
pub fn default_source() -> (r: String)
    ensures
        r@ == "Unknown"@,
{
    String::from_str("Unknown")
}

} // verus!
