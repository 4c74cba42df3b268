//! The upstream query builder: the request that one poll makes.

use vstd::prelude::*;
use vstd::string::*;
use crate::decimal::{decimal, decimal_string};

verus! {

/// The endpoint that lists questions, with the parameters that every query
/// has: the first page, oldest first, of one site. The page size follows.
pub const QUESTIONS: &'static str =
    "https://api.stackexchange.com/2.2/questions?page=1&order=asc&sort=creation&site=stackoverflow&pagesize=";

/// The query for the questions with tag `tag` that were created in the span
/// from `from` to `to` (seconds since the Unix epoch): the first page, oldest
/// first, at most `max_items` of them. A key, if there is one, comes last.
/// Neither the tag nor the key is checked or escaped.
pub open spec fn spec_url(
    from: u64,
    to: u64,
    tag: Seq<char>,
    max_items: u8,
    key: Option<Seq<char>>,
) -> Seq<char> {
    let open = QUESTIONS@ + decimal(max_items as nat) + "&fromdate="@ + decimal(from as nat) + "&todate="@ + decimal(
        to as nat,
    ) + "&tagged="@ + tag;
    match key {
        Some(k) => open + "&key="@ + k,
        None => open,
    }
}

/// A key as a mathematical value.
pub open spec fn key_view(key: Option<String>) -> Option<Seq<char>> {
    match key {
        Some(k) => Some(k@),
        None => None,
    }
}

/// Builds the URL of the upstream query.
pub fn get_url(from: u64, to: u64, tag: &str, max_items: u8, key: &Option<String>) -> (url: String)
    ensures
        url@ == spec_url(from, to, tag@, max_items, key_view(*key)),
{
    let mut url = String::from_str(QUESTIONS);
    let page_size = decimal_string(max_items as u64);
    url.append(page_size.as_str());
    url.append("&fromdate=");
    let from_date = decimal_string(from);
    url.append(from_date.as_str());
    url.append("&todate=");
    let to_date = decimal_string(to);
    url.append(to_date.as_str());
    url.append("&tagged=");
    url.append(tag);
    match key {
        Some(k) => {
            url.append("&key=");
            url.append(k.as_str());
        },
        None => {},
    }
    url
}

/// The query is a function of its inputs: equal inputs give the same URL,
/// character for character.
pub proof fn lemma_query_deterministic(
    from_a: u64,
    to_a: u64,
    tag_a: Seq<char>,
    max_items_a: u8,
    key_a: Option<Seq<char>>,
    from_b: u64,
    to_b: u64,
    tag_b: Seq<char>,
    max_items_b: u8,
    key_b: Option<Seq<char>>,
)
    requires
        from_a == from_b,
        to_a == to_b,
        tag_a == tag_b,
        max_items_a == max_items_b,
        key_a == key_b,
    ensures
        spec_url(from_a, to_a, tag_a, max_items_a, key_a) == spec_url(
            from_b,
            to_b,
            tag_b,
            max_items_b,
            key_b,
        ),
{
}

/// A key changes nothing but the end of the query: with a key the URL is the
/// URL without one, then `&key=` and the key.
pub proof fn lemma_query_key_comes_last(
    from: u64,
    to: u64,
    tag: Seq<char>,
    max_items: u8,
    key: Seq<char>,
)
    ensures
        spec_url(from, to, tag, max_items, Some(key)) == spec_url(from, to, tag, max_items, None)
            + "&key="@ + key,
{
}

} // verus!
