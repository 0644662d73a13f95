//! Searching on YouTube.

use vstd::prelude::*;
use vstd::string::*;
use vstd::utf8::encode_utf8;

use super::{form_encode, form_encoded, form_encoding_of_texts_injective, SearchResult};

verus! {

/// The reply to a search.
#[derive(Default, Debug, Clone, PartialEq)]
pub struct QueryRoot {
    pub kind: String,
    pub etag: String,
    pub next_page_token: Option<String>,
    pub region_code: String,
    pub page_info: PageInfo,
    pub items: Vec<Item>,
}

#[derive(Default, Debug, Clone, PartialEq)]
pub struct PageInfo {
    pub total_results: i64,
    pub results_per_page: i64,
}

#[derive(Default, Debug, Clone, PartialEq)]
pub struct Item {
    pub kind: String,
    pub etag: String,
    pub id: Id,
    pub snippet: Snippet,
}

#[derive(Default, Debug, Clone, PartialEq)]
pub struct Id {
    pub kind: String,
    pub video_id: String,
}

#[derive(Default, Debug, Clone, PartialEq)]
pub struct Snippet {
    pub published_at: String,
    pub channel_id: String,
    pub title: String,
    pub description: String,
    pub thumbnails: Thumbnails,
    pub channel_title: String,
    pub live_broadcast_content: String,
}

#[derive(Default, Debug, Clone, PartialEq)]
pub struct Thumbnails {
    pub default: Default,
    pub medium: Medium,
    pub high: High,
}

#[derive(Default, Debug, Clone, PartialEq)]
pub struct Default {
    pub url: String,
    pub width: i64,
    pub height: i64,
}

#[derive(Default, Debug, Clone, PartialEq)]
pub struct Medium {
    pub url: String,
    pub width: i64,
    pub height: i64,
}

#[derive(Default, Debug, Clone, PartialEq)]
pub struct High {
    pub url: String,
    pub width: i64,
    pub height: i64,
}

/// Whether `r` is what is shown of `item`.
pub open spec fn is_result_of(item: Item, r: SearchResult) -> bool {
    &&& r.url@ == "https://youtube.com/watch?v="@ + item.id.video_id@
    &&& r.title == item.snippet.title
    &&& r.author == item.snippet.channel_title
}

impl From<Item> for SearchResult {
    fn from(item: Item) -> (r: SearchResult)
        ensures
            is_result_of(item, r),
    {
        let mut url = "https://youtube.com/watch?v=".to_owned();
        url.append(item.id.video_id.as_str());
        SearchResult { url, title: item.snippet.title, author: item.snippet.channel_title }
    }
}

impl vstd::std_specs::convert::FromSpecImpl<Item> for SearchResult {
    open spec fn obeys_from_spec() -> bool {
        false
    }

    open spec fn from_spec(v: Item) -> Self {
        arbitrary()
    }
}

/// The address that answers a search.
pub open spec fn search_address(query: Seq<char>, api_key: Seq<char>) -> Seq<char> {
    "https://www.googleapis.com/youtube/v3/search?order=relevance&q="@ + form_encoded(
        encode_utf8(query),
    ) + "&type=video&key="@ + api_key + "&part=snippet"@
}

/// The address that answers a search.
pub fn search_request(query: &str, api_key: &str) -> (r: String)
    ensures
        r@ == search_address(query@, api_key@),
{
    let mut out = "https://www.googleapis.com/youtube/v3/search?order=relevance&q=".to_owned();
    out.append(form_encode(query).as_str());
    out.append("&type=video&key=");
    out.append(api_key);
    out.append("&part=snippet");
    out
}

/// The results that a reply holds, in its order.
pub fn search_results(root: QueryRoot) -> (r: Vec<SearchResult>)
    ensures
        r@.len() == root.items@.len(),
        forall|i: int| 0 <= i < r@.len() ==> is_result_of(root.items@[i], #[trigger] r@[i]),
{
    let mut acc: Vec<SearchResult> = Vec::new();
    let ghost items = root.items@;
    for item in iter: root.items
        invariant
            iter.seq() == items,
            acc@.len() == iter.index(),
            forall|i: int| 0 <= i < acc@.len() ==> is_result_of(items[i], #[trigger] acc@[i]),
    {
        acc.push(SearchResult::from(item));
    }
    acc
}

/// Different searches ask at different addresses.
pub proof fn addresses_tell_queries_apart(a: Seq<char>, b: Seq<char>, api_key: Seq<char>)
    requires
        search_address(a, api_key) == search_address(b, api_key),
    ensures
        a == b,
{
    let start = "https://www.googleapis.com/youtube/v3/search?order=relevance&q="@.len() as int;
    let x = form_encoded(encode_utf8(a));
    let y = form_encoded(encode_utf8(b));
    let address = search_address(a, api_key);
    assert(address.len() - x.len() == search_address(b, api_key).len() - y.len());
    assert(x =~= address.subrange(start, start + x.len()));
    assert(y =~= address.subrange(start, start + y.len()));
    form_encoding_of_texts_injective(a, b);
}

} // verus!
