//! Messages and errors as the user sees them.

use vstd::prelude::*;
use vstd::string::*;

use crate::error::{ArgError, StringError};
use crate::laws::adding::is_open_host;
use crate::message::{
    after_hook, can_embed, embeds_allowed, simple_message, simple_message_edit, Embed,
    MessageParams,
};
use crate::queue::{check_track, track_lookup};
use crate::text::{decimal, ends_with, has_suffix, lowercase, push_decimal, same_text};
use crate::track::{embed_request, TrackUrl};

verus! {

/// A message appears with all of its parts, each in its own place, whether it is new or changed.
pub proof fn message_appears_as_it_is(
    params: MessageParams,
    perms: u64,
    sent: Embed,
    changed: Embed,
)
    requires
        embeds_allowed(perms),
        call_ensures(simple_message, (params, perms), sent),
        call_ensures(simple_message_edit, (params, perms), changed),
    ensures
        sent.title == params.title,
        sent.description == params.message,
        sent.color == params.color,
        sent.fields == params.fields,
        changed == sent,
{
}

/// An embed can be sent exactly where both messages and embeds are allowed, whatever else is.
pub proof fn embeds_need_both_permissions(perms: u64, r: bool)
    requires
        call_ensures(can_embed, (perms,), r),
    ensures
        r <==> perms & 0x800 == 0x800 && perms & 0x4000 == 0x4000,
{
}

/// A command that failed in a channel of a guild is answered with its error, in red; nothing
/// else is answered by itself.
pub proof fn errors_are_told(
    outcome: Result<(), String>,
    in_guild_channel: bool,
    r: Option<MessageParams>,
)
    requires
        call_ensures(after_hook, (outcome, in_guild_channel), r),
    ensures
        outcome is Ok || !in_guild_channel ==> r is None,
        outcome matches Err(why) ==> in_guild_channel ==> {
            &&& r matches Some(params)
            &&& params.message == Some(why)
            &&& params.title matches Some(title)
            &&& title@ == "Error"@
            &&& params.color == Some((0xe7u8, 0x4cu8, 0x3cu8))
            &&& params.fields is None
        },
{
}

/// An error shows the text that it was made of.
pub proof fn errors_show_their_text(error: StringError, shown: String)
    requires
        call_ensures(StringError::to_string, (&error,), shown),
    ensures
        shown@ == error.0@,
{
}

/// An error that is made of a text, or of an argument that could not be read, tells all of it.
pub proof fn errors_tell_what_they_are_made_of(
    text: &str,
    error: StringError,
    argument: ArgError,
    told: StringError,
)
    requires
        call_ensures(<StringError as From<&str>>::from, (text,), error),
        call_ensures(<StringError as From<ArgError>>::from, (argument,), told),
    ensures
        error.0@ == text@,
        argument is Eos ==> told.0@ == "Not enough arguments provided"@,
        argument matches ArgError::Parse(cause) ==> told.0@ == "Failed parsing an argument: "@
            + cause@,
        argument is Other ==> told.0@ == "Unknown argument parsing error"@,
{
}

/// An argument that could not be read shows why: the message of the parser, or that none was
/// left.
pub proof fn argument_errors_show_their_cause(error: ArgError, shown: String)
    requires
        error !is Other,
        call_ensures(ArgError::to_string, (&error,), shown),
    ensures
        error is Eos ==> shown@ == "ArgError(\"end of string\")"@,
        error matches ArgError::Parse(text) ==> shown@ == "ArgError(\""@ + text@ + "\")"@,
{
}

/// Texts are compared in full, and a text ends with another exactly if it is some text followed
/// by that one.
pub proof fn texts_are_compared_in_full(a: &str, b: &str, same: bool, ends: bool)
    requires
        call_ensures(same_text, (a, b), same),
        call_ensures(has_suffix, (a, b), ends),
    ensures
        same <==> a@ == b@,
        ends <==> exists|front: Seq<char>| a@ == #[trigger] (front + b@),
{
    if ends {
        let front = a@.take(a@.len() - b@.len());
        assert(a@ =~= front + b@);
    }
    if exists|front: Seq<char>| a@ == #[trigger] (front + b@) {
        assert(a@.skip(a@.len() - b@.len()) =~= b@);
    }
}

/// A number is written behind the text that there is, which stays as it is.
pub proof fn numbers_are_written_behind(out: &mut String, n: u64)
    requires
        call_ensures(push_decimal, (out, n), ()),
    ensures
        final(out)@ == old(out)@ + decimal(n as nat),
{
}

/// A track is looked up only if it can be added: an address that is refused is refused before
/// anyone is asked of it, with the same words, and any other is asked of as its site allows.
pub proof fn refused_address_is_not_looked_up(
    url: TrackUrl,
    checked: Result<(), StringError>,
    r: Result<Option<String>, StringError>,
    request: Option<String>,
)
    requires
        call_ensures(check_track, (&url,), checked),
        call_ensures(track_lookup, (&url,), r),
        call_ensures(embed_request, (&url,), request),
    ensures
        checked is Ok <==> url.host is Some && is_open_host(lowercase(url.host->0@)),
        r is Ok <==> checked is Ok,
        r matches Err(e) ==> checked->Err_0.0@ == e.0@,
        checked is Err && url.host is None ==> checked->Err_0.0@ == "No host provided"@,
        checked is Err && url.host is Some ==> checked->Err_0.0@ == "Unsupported host: "@
            + url.host->0@,
        r matches Ok(asked) ==> (asked is Some <==> request is Some),
        r matches Ok(Some(asked)) ==> request->0@ == asked@,
{
    if url.host is Some {
        let lower = lowercase(url.host->0@);
        let tail = "bandcamp.com"@;
        if ends_with(lower, tail) {
            let artist = lower.take(lower.len() - tail.len());
            assert(lower =~= artist + tail);
        }
        if exists|artist: Seq<char>| lower == #[trigger] (artist + tail) {
            assert(lower.skip(lower.len() - tail.len()) =~= tail);
        }
    }
}

} // verus!
