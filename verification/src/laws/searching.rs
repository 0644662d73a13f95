//! Searching: what is asked, what is found, and how it is listed.

use vstd::prelude::*;
use vstd::string::*;
use vstd::utf8::encode_utf8;

use crate::laws::commanding::{names_soundcloud, names_youtube};
use crate::search::{
    form_byte, form_encoded, format_results, result_lines, soundcloud, youtube, SearchResult,
    Site,
};
use crate::text::{decimal, digit_char, lowercase};

verus! {

/// A word is read as a site exactly if it names one in whatever letter case.
pub proof fn sites_have_two_names(word: &str, r: Result<Site, ()>)
    requires
        call_ensures(Site::from_str, (word,), r),
    ensures
        names_youtube(lowercase(word@)) ==> r == Ok::<Site, ()>(Site::YouTube),
        names_soundcloud(lowercase(word@)) ==> r == Ok::<Site, ()>(Site::SoundCloud),
        !names_youtube(lowercase(word@)) && !names_soundcloud(lowercase(word@)) ==> r is Err,
{
    reveal_strlit("youtube");
    reveal_strlit("yt");
    reveal_strlit("soundcloud");
    reveal_strlit("sc");
    assert("yt"@[0] != "sc"@[0]);
    assert("youtube"@.len() == 7 && "soundcloud"@.len() == 10);
}

/// A site shows under its own name.
pub proof fn sites_show_their_name(site: Site, name: &'static str)
    requires
        call_ensures(Site::name, (&site,), name),
    ensures
        site == Site::YouTube ==> name@ == "YouTube"@,
        site == Site::SoundCloud ==> name@ == "SoundCloud"@,
{
}

/// No result is no list, and says so.
pub proof fn no_results_are_said(results: &[SearchResult], shown: String)
    requires
        results@.len() == 0,
        call_ensures(format_results, (results,), shown),
    ensures
        shown@ == "No results"@,
{
}

/// Every result has its line: one more result adds a line behind those of the others, with its
/// number, counted from one, its title as a link to its address, and its author.
pub proof fn every_result_has_its_line(
    results: &[SearchResult],
    shown: String,
    more: &[SearchResult],
    shown_more: String,
)
    requires
        call_ensures(format_results, (results,), shown),
        call_ensures(format_results, (more,), shown_more),
        more@.len() == results@.len() + 1,
        forall|i: int| 0 <= i < results@.len() ==> #[trigger] more@[i] == results@[i],
    ensures
        ({
            let last = more@.last();
            let line = "**"@ + decimal(more@.len()) + "**: ["@ + last.title@ + "]("@ + last.url@
                + ") by **"@ + last.author@ + "**\n"@;
            if results@.len() == 0 {
                shown_more@ == line
            } else {
                shown_more@ == shown@ + line
            }
        }),
{
    assert(more@.drop_last() =~= results@);
    if results@.len() == 0 {
        let last = more@.last();
        assert(result_lines(results@) =~= Seq::empty());
        assert(shown_more@ =~= "**"@ + decimal(more@.len()) + "**: ["@ + last.title@ + "]("@
            + last.url@ + ") by **"@ + last.author@ + "**\n"@);
    }
}

/// The form encoding of bytes is made byte by byte, in their order: letters, digits and `*-._`
/// stand for themselves, a blank becomes a plus sign, and any other byte is written as a
/// percent sign and its two hexadecimal digits.
pub proof fn bytes_are_encoded_one_by_one(byte: u8, bytes: Seq<u8>)
    ensures
        form_encoded(Seq::empty()) == Seq::<char>::empty(),
        form_encoded(seq![byte] + bytes) == form_byte(byte) + form_encoded(bytes),
        form_byte(0x20) == seq!['+'],
        (0x30 <= byte <= 0x39 || 0x41 <= byte <= 0x5a || 0x61 <= byte <= 0x7a || byte == 0x2a
            || byte == 0x2d || byte == 0x2e || byte == 0x5f) ==> form_byte(byte) == seq![
            byte as char,
        ],
        !(0x30 <= byte <= 0x39 || 0x41 <= byte <= 0x5a || 0x61 <= byte <= 0x7a || byte == 0x2a
            || byte == 0x2d || byte == 0x2e || byte == 0x5f || byte == 0x20) ==> form_byte(
            byte,
        ) == seq!['%', digit_char((byte / 16) as nat), digit_char((byte % 16) as nat)],
{
    assert((seq![byte] + bytes).drop_first() =~= bytes);
}

/// A search on YouTube asks for the most relevant videos to all of the words, with the given key.
pub proof fn youtube_is_asked_for_the_words(query: &str, api_key: &str, r: String)
    requires
        call_ensures(youtube::search_request, (query, api_key), r),
    ensures
        r@ == "https://www.googleapis.com/youtube/v3/search?order=relevance&q="@ + form_encoded(
            encode_utf8(query@),
        ) + "&type=video&key="@ + api_key@ + "&part=snippet"@,
{
}

/// A search on SoundCloud asks for all of the words, with the given client.
pub proof fn soundcloud_is_asked_for_the_words(query: &str, client_id: &str, r: String)
    requires
        call_ensures(soundcloud::search_request, (query, client_id), r),
    ensures
        r@ == "https://api-v2.soundcloud.com/search?q="@ + form_encoded(encode_utf8(query@))
            + "&client_id="@ + client_id@,
{
}

/// Every video of a reply is a result, in the order of the reply: with its own address, its
/// title, and its channel as the author.
pub proof fn every_video_is_a_result(root: youtube::QueryRoot, r: Vec<SearchResult>)
    requires
        call_ensures(youtube::search_results, (root,), r),
    ensures
        r@.len() == root.items@.len(),
        forall|i: int|
            0 <= i < r@.len() ==> {
                let result = #[trigger] r@[i];
                let item = root.items@[i];
                &&& result.url@ == "https://youtube.com/watch?v="@ + item.id.video_id@
                &&& result.title@ == item.snippet.title@
                &&& result.author@ == item.snippet.channel_title@
            },
{
}

/// Every item of a reply is a result, in the order of the reply: with its own address, its
/// title or else its URI, and the name of its user as the author.
pub proof fn every_item_is_a_result(root: soundcloud::QueryRoot, r: Vec<SearchResult>)
    requires
        call_ensures(soundcloud::search_results, (root,), r),
    ensures
        r@.len() == root.collection@.len(),
        forall|i: int|
            0 <= i < r@.len() ==> {
                let result = #[trigger] r@[i];
                let item = root.collection@[i];
                &&& result.url@ == item.permalink_url@
                &&& item.title matches Some(title) ==> result.title@ == title@
                &&& item.title is None ==> result.title@ == item.uri@
                &&& item.user matches Some(user) ==> result.author@ == user.username@
                &&& item.user is None ==> result.author@ == "Unknown User"@
            },
{
}

} // verus!
