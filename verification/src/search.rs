//! Searching for tracks: the sites, the requests, and the results as they are shown.

use vstd::prelude::*;
use vstd::string::*;
use vstd::utf8::*;

use crate::text::{ascii_lower, decimal, digit_char, lowercase, push_decimal, same_text, to_lowercase};

pub mod soundcloud;
pub mod youtube;

verus! {

/// A track that a search found.
#[derive(Debug)]
pub struct SearchResult {
    pub url: String,
    pub title: String,
    pub author: String,
}

impl Clone for SearchResult {
    fn clone(&self) -> (r: Self)
        ensures
            r == *self,
    {
        SearchResult {
            url: self.url.clone(),
            title: self.title.clone(),
            author: self.author.clone(),
        }
    }
}

/// A site that can be searched.
#[derive(Debug, Clone, Copy, PartialEq, Eq, Structural)]
pub enum Site {
    YouTube,
    SoundCloud,
}

/// The site that a lower-case name stands for.
pub open spec fn site_named(lower: Seq<char>) -> Option<Site> {
    if lower == "youtube"@ || lower == "yt"@ {
        Some(Site::YouTube)
    } else if lower == "soundcloud"@ || lower == "sc"@ {
        Some(Site::SoundCloud)
    } else {
        None
    }
}

/// The site that a lower-case name stands for.
pub fn site_by_name(lower: &str) -> (r: Option<Site>)
    ensures
        r == site_named(lower@),
{
    if same_text(lower, "youtube") || same_text(lower, "yt") {
        Some(Site::YouTube)
    } else if same_text(lower, "soundcloud") || same_text(lower, "sc") {
        Some(Site::SoundCloud)
    } else {
        None
    }
}

impl Site {
    /// Reads the name of a site, in whatever letter case it is written.
    pub fn from_str(string: &str) -> (r: Result<Site, ()>)
        ensures
            r == match site_named(lowercase(string@)) {
                Some(site) => Ok::<Site, ()>(site),
                None => Err(()),
            },
            is_ascii_chars(string@) ==> lowercase(string@) == string@.map_values(
                |c: char| ascii_lower(c),
            ),
    {
        let lower = to_lowercase(string);
        match site_by_name(lower.as_str()) {
            Some(site) => Ok(site),
            None => Err(()),
        }
    }

    /// The name of the site as it is shown.
    pub open spec fn shown(self) -> Seq<char> {
        match self {
            Site::YouTube => "YouTube"@,
            Site::SoundCloud => "SoundCloud"@,
        }
    }

    /// The name of the site as it is shown.
    pub fn name(&self) -> (r: &'static str)
        ensures
            r@ == self.shown(),
    {
        match self {
            Site::YouTube => "YouTube",
            Site::SoundCloud => "SoundCloud",
        }
    }
}

/// Whether a byte stands for itself in a form-encoded text.
pub open spec fn is_form_plain(b: u8) -> bool {
    ||| b == 0x2a
    ||| b == 0x2d
    ||| b == 0x2e
    ||| b == 0x5f
    ||| 0x30 <= b <= 0x39
    ||| 0x41 <= b <= 0x5a
    ||| 0x61 <= b <= 0x7a
}

/// The form encoding of one byte: letters, digits and `*-._` stand for themselves, a blank
/// becomes a plus sign, anything else a percent sign and two hexadecimal digits.
pub open spec fn form_byte(b: u8) -> Seq<char> {
    if is_form_plain(b) {
        seq![b as char]
    } else if b == 0x20 {
        seq!['+']
    } else {
        seq!['%', digit_char((b / 16) as nat), digit_char((b % 16) as nat)]
    }
}

/// The form encoding of a row of bytes.
pub open spec fn form_encoded(bytes: Seq<u8>) -> Seq<char>
    decreases bytes.len(),
{
    if bytes.len() == 0 {
        Seq::empty()
    } else {
        form_byte(bytes[0]) + form_encoded(bytes.drop_first())
    }
}

/// Calls `url::form_urlencoded::byte_serialize` on the UTF-8 bytes of a text and joins the
/// pieces: the form encoding of those bytes.
#[verifier::external_body]
pub(crate) fn form_encode(text: &str) -> (r: String)
    ensures
        r@ == form_encoded(encode_utf8(text@)),
{
    url::form_urlencoded::byte_serialize(text.as_bytes()).collect()
}

/// One line of a list of results.
pub open spec fn result_line(number: nat, result: SearchResult) -> Seq<char> {
    "**"@ + decimal(number) + "**: ["@ + result.title@ + "]("@ + result.url@ + ") by **"@
        + result.author@ + "**\n"@
}

/// The lines of a list of results, numbered from one.
pub open spec fn result_lines(results: Seq<SearchResult>) -> Seq<char>
    decreases results.len(),
{
    if results.len() == 0 {
        Seq::empty()
    } else {
        result_lines(results.drop_last()) + result_line(results.len(), results.last())
    }
}

/// A list of results as it is shown.
pub open spec fn results_text(results: Seq<SearchResult>) -> Seq<char> {
    if results.len() == 0 {
        "No results"@
    } else {
        result_lines(results)
    }
}

/// A list of results as it is shown.
pub fn format_results(search_results: &[SearchResult]) -> (r: String)
    ensures
        r@ == results_text(search_results@),
{
    if search_results.len() == 0 {
        return "No results".to_owned();
    }
    let mut acc = String::new();
    let mut idx: usize = 0;
    assert(search_results@.take(0) =~= Seq::empty());
    while idx < search_results.len()
        invariant
            idx <= search_results@.len(),
            acc@ == result_lines(search_results@.take(idx as int)),
        decreases search_results@.len() - idx,
    {
        let result = &search_results[idx];
        acc.append("**");
        push_decimal(&mut acc, idx as u64 + 1);
        acc.append("**: [");
        acc.append(result.title.as_str());
        acc.append("](");
        acc.append(result.url.as_str());
        acc.append(") by **");
        acc.append(result.author.as_str());
        acc.append("**\n");
        proof {
            let shown = search_results@.take(idx + 1);
            assert(shown.drop_last() =~= search_results@.take(idx as int));
            assert(acc@ =~= result_lines(shown.drop_last()) + result_line(
                (idx + 1) as nat,
                *result,
            ));
        }
        idx = idx + 1;
    }
    assert(search_results@.take(idx as int) =~= search_results@);
    acc
}

/// A form-encoded text holds only letters, digits and `*-._+%`: whatever is searched for
/// cannot end the query in which it stands or add another one to it.
pub proof fn form_encoded_is_plain(bytes: Seq<u8>)
    ensures
        forall|i: int|
            0 <= i < form_encoded(bytes).len() ==> {
                let c = #[trigger] form_encoded(bytes)[i];
                ||| c == '+'
                ||| c == '%'
                ||| (c as u32) < 128 && is_form_plain(c as u8)
            },
    decreases bytes.len(),
{
    if bytes.len() > 0 {
        form_encoded_is_plain(bytes.drop_first());
        let head = form_byte(bytes[0]);
        let tail = form_encoded(bytes.drop_first());
        assert forall|i: int| 0 <= i < form_encoded(bytes).len() implies {
            let c = #[trigger] form_encoded(bytes)[i];
            ||| c == '+'
            ||| c == '%'
            ||| (c as u32) < 128 && is_form_plain(c as u8)
        } by {
            if i < head.len() {
                assert(form_encoded(bytes)[i] == head[i]);
            } else {
                assert(form_encoded(bytes)[i] == tail[i - head.len()]);
            }
        }
    }
}

/// Different rows of bytes have different form encodings.
pub proof fn form_encoded_injective(a: Seq<u8>, b: Seq<u8>)
    requires
        form_encoded(a) == form_encoded(b),
    ensures
        a == b,
    decreases a.len(),
{
    if a.len() == 0 {
        if b.len() > 0 {
            assert(form_encoded(b).len() >= form_byte(b[0]).len());
        }
        assert(a =~= b);
    } else if b.len() == 0 {
        assert(form_encoded(a).len() >= form_byte(a[0]).len());
    } else {
        let code = form_encoded(a);
        let x = form_byte(a[0]);
        let y = form_byte(b[0]);
        assert(code[0] == x[0] && code[0] == y[0]);
        if x.len() == 3 && y.len() == 3 {
            assert(code[1] == x[1] && code[1] == y[1]);
            assert(code[2] == x[2] && code[2] == y[2]);
        }
        assert(a[0] == b[0]);
        assert(form_encoded(a.drop_first()) =~= code.skip(x.len() as int));
        assert(form_encoded(b.drop_first()) =~= code.skip(y.len() as int));
        form_encoded_injective(a.drop_first(), b.drop_first());
        assert(a =~= seq![a[0]] + a.drop_first());
        assert(b =~= seq![b[0]] + b.drop_first());
    }
}

/// Different texts have different form encodings.
pub proof fn form_encoding_of_texts_injective(a: Seq<char>, b: Seq<char>)
    requires
        form_encoded(encode_utf8(a)) == form_encoded(encode_utf8(b)),
    ensures
        a == b,
{
    form_encoded_injective(encode_utf8(a), encode_utf8(b));
    encode_utf8_decode_utf8(a);
    encode_utf8_decode_utf8(b);
}

} // verus!
