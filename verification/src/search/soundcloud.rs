//! Searching on SoundCloud.

use vstd::prelude::*;
use vstd::string::*;
use vstd::utf8::encode_utf8;

use super::{form_encode, form_encoded, form_encoding_of_texts_injective, SearchResult};

verus! {

/// The type `serde_json::Value`. Parts of a reply that nothing reads are carried through in
/// it.
#[verifier::external_type_specification]
#[verifier::external_body]
pub struct ExValue(serde_json::Value);

/// The method `<serde_json::Value as Clone>::clone`: a copy of the value. The derived
/// `Clone` of the reply's types calls it.
pub assume_specification[ <serde_json::Value as Clone>::clone ](value: &serde_json::Value) -> (r:
    serde_json::Value)
    ensures
        r == *value,
;

/// The reply to a search.
#[derive(Default, Debug, Clone, PartialEq)]
pub struct QueryRoot {
    pub collection: Vec<Collection>,
    pub total_results: i64,
    pub next_href: String,
    pub query_urn: String,
}

#[derive(Default, Debug, Clone, PartialEq)]
pub struct Collection {
    pub comment_count: Option<i64>,
    pub full_duration: Option<i64>,
    pub downloadable: Option<bool>,
    pub created_at: String,
    pub description: Option<String>,
    pub media: Option<Media>,
    pub title: Option<String>,
    pub publisher_metadata: Option<PublisherMetadata>,
    pub duration: Option<i64>,
    pub has_downloads_left: Option<bool>,
    pub artwork_url: Option<String>,
    pub public: Option<bool>,
    pub streamable: Option<bool>,
    pub tag_list: Option<String>,
    pub genre: Option<String>,
    pub id: i64,
    pub reposts_count: Option<i64>,
    pub state: Option<String>,
    pub label_name: Option<serde_json::Value>,
    pub last_modified: String,
    pub commentable: Option<bool>,
    pub policy: Option<String>,
    pub visuals: Option<serde_json::Value>,
    pub kind: Option<String>,
    pub purchase_url: Option<String>,
    pub sharing: Option<String>,
    pub uri: String,
    pub secret_token: Option<serde_json::Value>,
    pub download_count: Option<i64>,
    pub likes_count: Option<i64>,
    pub urn: String,
    pub license: Option<String>,
    pub purchase_title: Option<String>,
    pub display_date: Option<String>,
    pub embeddable_by: Option<String>,
    pub release_date: Option<serde_json::Value>,
    pub user_id: Option<i64>,
    pub monetization_model: Option<String>,
    pub waveform_url: Option<String>,
    pub permalink: String,
    pub permalink_url: String,
    pub user: Option<User>,
    pub playback_count: Option<i64>,
}

#[derive(Default, Debug, Clone, PartialEq)]
pub struct Media {
    pub transcodings: Vec<Transcoding>,
}

#[derive(Default, Debug, Clone, PartialEq)]
pub struct Transcoding {
    pub url: String,
    pub preset: String,
    pub duration: Option<i64>,
    pub snipped: bool,
    pub format: Format,
    pub quality: String,
}

#[derive(Default, Debug, Clone, PartialEq)]
pub struct Format {
    pub protocol: String,
    pub mime_type: String,
}

#[derive(Default, Debug, Clone, PartialEq)]
pub struct PublisherMetadata {
    pub urn: String,
    pub contains_music: Option<bool>,
    pub artist: Option<String>,
    pub isrc: Option<String>,
    pub id: i64,
    pub album_title: Option<String>,
    pub p_line_for_display: Option<String>,
    pub writer_composer: Option<String>,
    pub iswc: Option<String>,
    pub publisher: Option<String>,
    pub upc_or_ean: Option<String>,
    pub p_line: Option<String>,
    pub release_title: Option<String>,
}

#[derive(Default, Debug, Clone, PartialEq)]
pub struct User {
    pub avatar_url: String,
    pub city: Option<String>,
    pub comments_count: i64,
    pub country_code: Option<String>,
    pub created_at: String,
    pub creator_subscriptions: Vec<CreatorSubscription>,
    pub creator_subscription: CreatorSubscription2,
    pub description: Option<String>,
    pub followers_count: i64,
    pub followings_count: i64,
    pub first_name: String,
    pub full_name: String,
    pub groups_count: i64,
    pub id: i64,
    pub kind: String,
    pub last_modified: String,
    pub last_name: String,
    pub likes_count: i64,
    pub playlist_likes_count: i64,
    pub permalink: String,
    pub permalink_url: String,
    pub playlist_count: i64,
    pub reposts_count: serde_json::Value,
    pub track_count: i64,
    pub uri: String,
    pub urn: String,
    pub username: String,
    pub verified: bool,
    pub visuals: Option<Visuals>,
}

#[derive(Default, Debug, Clone, PartialEq)]
pub struct CreatorSubscription {
    pub product: Product,
}

#[derive(Default, Debug, Clone, PartialEq)]
pub struct Product {
    pub id: String,
}

#[derive(Default, Debug, Clone, PartialEq)]
pub struct CreatorSubscription2 {
    pub product: Product2,
}

#[derive(Default, Debug, Clone, PartialEq)]
pub struct Product2 {
    pub id: String,
}

#[derive(Default, Debug, Clone, PartialEq)]
pub struct Visuals {
    pub urn: String,
    pub enabled: bool,
    pub visuals: Vec<Visual>,
    pub tracking: Option<serde_json::Value>,
}

#[derive(Default, Debug, Clone, PartialEq)]
pub struct Visual {
    pub urn: String,
    pub entry_time: i64,
    pub visual_url: String,
}

/// Whether `r` is what is shown of `item`: where a title or a user is missing, the track's
/// URI and a fixed text take their place.
pub open spec fn is_result_of(item: Collection, r: SearchResult) -> bool {
    &&& r.title == match item.title {
        Some(title) => title,
        None => item.uri,
    }
    &&& r.author@ == match item.user {
        Some(user) => user.username@,
        None => "Unknown User"@,
    }
    &&& r.url == item.permalink_url
}

impl From<Collection> for SearchResult {
    fn from(collection: Collection) -> (r: SearchResult)
        ensures
            is_result_of(collection, r),
    {
        SearchResult {
            title: match collection.title {
                Some(title) => title,
                None => collection.uri,
            },
            author: match collection.user {
                Some(user) => user.username,
                None => "Unknown User".to_owned(),
            },
            url: collection.permalink_url,
        }
    }
}

impl vstd::std_specs::convert::FromSpecImpl<Collection> for SearchResult {
    open spec fn obeys_from_spec() -> bool {
        false
    }

    open spec fn from_spec(v: Collection) -> Self {
        arbitrary()
    }
}

/// The address that answers a search.
pub open spec fn search_address(query: Seq<char>, client_id: Seq<char>) -> Seq<char> {
    "https://api-v2.soundcloud.com/search?q="@ + form_encoded(encode_utf8(query)) + "&client_id="@
        + client_id
}

/// The address that answers a search.
pub fn search_request(query: &str, client_id: &str) -> (r: String)
    ensures
        r@ == search_address(query@, client_id@),
{
    let mut out = "https://api-v2.soundcloud.com/search?q=".to_owned();
    out.append(form_encode(query).as_str());
    out.append("&client_id=");
    out.append(client_id);
    out
}

/// The results that a reply holds, in its order.
pub fn search_results(root: QueryRoot) -> (r: Vec<SearchResult>)
    ensures
        r@.len() == root.collection@.len(),
        forall|i: int| 0 <= i < r@.len() ==> is_result_of(root.collection@[i], #[trigger] r@[i]),
{
    let mut acc: Vec<SearchResult> = Vec::new();
    let ghost items = root.collection@;
    for item in iter: root.collection
        invariant
            iter.seq() == items,
            acc@.len() == iter.index(),
            forall|i: int| 0 <= i < acc@.len() ==> is_result_of(items[i], #[trigger] acc@[i]),
    {
        acc.push(SearchResult::from(item));
    }
    acc
}

/// Different searches ask at different addresses.
pub proof fn addresses_tell_queries_apart(a: Seq<char>, b: Seq<char>, client_id: Seq<char>)
    requires
        search_address(a, client_id) == search_address(b, client_id),
    ensures
        a == b,
{
    let start = "https://api-v2.soundcloud.com/search?q="@.len() as int;
    let x = form_encoded(encode_utf8(a));
    let y = form_encoded(encode_utf8(b));
    let address = search_address(a, client_id);
    assert(address.len() - x.len() == search_address(b, client_id).len() - y.len());
    assert(x =~= address.subrange(start, start + x.len()));
    assert(y =~= address.subrange(start, start + y.len()));
    form_encoding_of_texts_injective(a, b);
}

} // verus!
