//! Commands: reading their arguments, and answering them.

use std::collections::HashMap;
use vstd::prelude::*;
use vstd::string::*;

use crate::args::{Argument, Arguments};
use crate::commands::{
    answer_in_guild, cached_bytes, cached_items, failed, get_queue_for_guild, leave, missing,
    read_remove_index, read_site, require_guild, saved_volume, search, search_answer, volume,
    wipe_answer, wipe_audio_cache, Answer, CacheEntry, Missing, Place, SearchMeans, SearchPlan,
    Wipe, Work,
};
use crate::error::{ArgError, StringError};
use crate::message::MessageParams;
use crate::search::{format_results, SearchResult, Site};
use crate::text::{decimal, lowercase, number_error, written_number};

verus! {

/// Whether an answer is a message to the channel that holds a text and nothing else.
pub open spec fn says(answer: Answer, text: Seq<char>) -> bool {
    answer matches Answer::Send(params) && holds_only(params, text)
}

/// Whether a message holds a text and nothing else.
pub open spec fn holds_only(params: MessageParams, text: Seq<char>) -> bool {
    &&& params.message matches Some(message)
    &&& message@ == text
    &&& params.title is None
    &&& params.color is None
    &&& params.fields is None
}

/// Arguments are read in their order: the first one is the current one, moving past it leaves the
/// others as they are, and the rest of the message begins with it.
pub proof fn arguments_are_read_in_order(
    items: Vec<Argument>,
    args: Arguments,
    none: bool,
    current: Option<&str>,
    rest: &str,
    moving: &mut Arguments,
)
    requires
        call_ensures(Arguments::new, (items,), args),
        call_ensures(Arguments::is_empty, (&args,), none),
        call_ensures(Arguments::current, (&args,), current),
        call_ensures(Arguments::rest, (&args,), rest),
        old(moving)@ == args@,
        call_ensures(Arguments::advance, (moving,), ()),
    ensures
        args@ == items@,
        none <==> items@.len() == 0,
        current is Some <==> items@.len() > 0,
        current matches Some(text) ==> text@ == items@[0].text@,
        items@.len() > 0 ==> rest@ == items@[0].rest@ && final(moving)@ == items@.drop_first(),
        items@.len() == 0 ==> rest@.len() == 0 && final(moving)@.len() == 0,
{
}

/// A number is read exactly if the next argument writes one that fits, and is then moved past;
/// otherwise nothing is moved past.
pub proof fn numbers_are_read(
    args: &mut Arguments,
    r: Result<usize, ArgError>,
    same: Arguments,
    peeked: Result<usize, ArgError>,
)
    requires
        call_ensures(Arguments::single_number, (args,), r),
        same@ == old(args)@,
        call_ensures(Arguments::parse_number, (&same,), peeked),
    ensures
        r is Ok <==> old(args)@.len() > 0 && (written_number(old(args)@[0].text@) matches Some(v)
            && v <= usize::MAX),
        r matches Ok(n) ==> written_number(old(args)@[0].text@) == Some(n as nat) && final(args)@
            == old(args)@.drop_first(),
        r is Err ==> final(args)@ == old(args)@,
        old(args)@.len() == 0 ==> r matches Err(ArgError::Eos),
        r is Err && old(args)@.len() > 0 ==> (r matches Err(ArgError::Parse(e)) && e@
            == number_error(old(args)@[0].text@)),
        r is Ok <==> peeked is Ok,
        r matches Ok(n) ==> peeked == Ok::<usize, ArgError>(n),
{
}

/// The number of the track to remove is the number that the first argument writes; where there is
/// none, the user is told why and how to use the command, and nothing is moved past.
pub proof fn remove_reads_its_number(args: &mut Arguments, r: Result<usize, StringError>)
    requires
        call_ensures(read_remove_index, (args,), r),
    ensures
        r is Ok <==> old(args)@.len() > 0 && (written_number(old(args)@[0].text@) matches Some(v)
            && v <= usize::MAX),
        r matches Ok(n) ==> written_number(old(args)@[0].text@) == Some(n as nat) && final(args)@
            == old(args)@.drop_first(),
        r is Err ==> final(args)@ == old(args)@,
        r is Err && old(args)@.len() == 0 ==> r->Err_0.0@ == "Invalid index provided ("@
            + "ArgError(\"end of string\")"@ + "). Usage: .remove <idx>"@,
        r is Err && old(args)@.len() > 0 ==> r->Err_0.0@ == "Invalid index provided ("@ + (
        "ArgError(\""@ + number_error(old(args)@[0].text@) + "\")"@) + "). Usage: .remove <idx>"@,
{
}

/// What is missing is named, each thing by its own text.
pub proof fn missing_things_are_named(what: Missing, r: StringError)
    requires
        call_ensures(missing, (what,), r),
    ensures
        what is Guild ==> r.0@ == "Only Guilds supported"@,
        what is GuildChannel ==> r.0@ == "Not in a guild channel"@,
        what is VoiceManager ==> r.0@ == "Could not find VoiceManager"@,
        what is VoiceChannel ==> r.0@ == "You are not in a voice channel"@,
        what is SearchClient ==> r.0@ == "Could not get Search HTTP Client"@,
        what is YouTubeKey ==> r.0@ == "Could not find Youtube API Key"@,
        what is SoundCloudKey ==> r.0@ == "Could not find SoundCloud API Key"@,
        what is QueueMap ==> r.0@ == "Could not find Queue map in Context"@,
        what is LeftChannel ==> r.0@ == "Failed to leave channel"@,
{
}

/// Work that failed is named, and its cause is told in full behind that.
pub proof fn failures_tell_their_cause(work: Work, cause: &str, r: StringError)
    requires
        call_ensures(failed, (work, cause), r),
    ensures
        work is SendMessage ==> r.0@ == "Failed to send message: "@ + cause@,
        work is Search ==> r.0@ == "Failed to search: "@ + cause@,
        work is ReadCache ==> r.0@ == "Failed to read track cache: "@ + cause@,
        work is RemoveCache ==> r.0@ == "Failed to remove cached track dir: "@ + cause@,
        work is CreateCache ==> r.0@ == "Failed to create cached track dir: "@ + cause@,
{
}

/// In a channel of a guild a text is answered as it is; elsewhere the user is told where the
/// command can be used, whatever the text was.
pub proof fn answers_are_given_in_guilds(text: String, in_guild_channel: bool, r: Answer)
    requires
        call_ensures(answer_in_guild, (text, in_guild_channel), r),
    ensures
        in_guild_channel ==> says(r, text@),
        !in_guild_channel ==> (r matches Answer::Reply(reply) && reply@
            == "Can only be used in Guild channels"@),
{
}

/// A wipe counts every file once and adds up the lengths that could be read: one more file in the
/// directory is one more in the count, with its length in the sum, wherever it stands; what could
/// not be read counts for nothing.
pub proof fn wipe_counts_every_file(
    list: Vec<CacheEntry>,
    more: Vec<CacheEntry>,
    args: Arguments,
    entry: CacheEntry,
    r: Result<Wipe, StringError>,
    s: Result<Wipe, StringError>,
    k: int,
)
    requires
        cached_bytes(list@) <= u64::MAX,
        cached_bytes(more@) <= u64::MAX,
        call_ensures(wipe_audio_cache, (Ok(list), &args), r),
        call_ensures(wipe_audio_cache, (Ok(more), &args), s),
        0 <= k <= list@.len(),
        more@ == list@.take(k) + seq![entry] + list@.skip(k),
    ensures
        r is Ok && s is Ok,
        list@.len() == 0 ==> r->Ok_0.items == 0 && r->Ok_0.total_bytes == 0,
        s->Ok_0.items == r->Ok_0.items + (if entry is File {
            1int
        } else {
            0
        }),
        s->Ok_0.total_bytes == r->Ok_0.total_bytes + (match entry {
            CacheEntry::File(Some(len)) => len as int,
            _ => 0,
        }),
        r->Ok_0.dry_run == s->Ok_0.dry_run,
{
    lemma_counts_of_parts(list@.take(k), list@.skip(k));
    assert(list@.take(k) + list@.skip(k) =~= list@);
    lemma_counts_of_parts(list@.take(k) + seq![entry], list@.skip(k));
    lemma_counts_of_parts(list@.take(k), seq![entry]);
    assert(seq![entry].drop_last() =~= Seq::empty());
    reveal_with_fuel(cached_bytes, 2);
    reveal_with_fuel(cached_items, 2);
}

proof fn lemma_counts_of_parts(a: Seq<CacheEntry>, b: Seq<CacheEntry>)
    ensures
        cached_bytes(a + b) == cached_bytes(a) + cached_bytes(b),
        cached_items(a + b) == cached_items(a) + cached_items(b),
    decreases b.len(),
{
    if b.len() == 0 {
        assert(a + b =~= a);
    } else {
        lemma_counts_of_parts(a, b.drop_last());
        assert((a + b).drop_last() =~= a + b.drop_last());
    }
}

/// A wipe is a dry run exactly if its first argument is `--dry`; a directory that could not be
/// read is not wiped, and the user is told why.
pub proof fn wipe_is_dry_if_asked(
    entries: Result<Vec<CacheEntry>, String>,
    args: Arguments,
    r: Result<Wipe, StringError>,
)
    requires
        entries matches Ok(list) ==> cached_bytes(list@) <= u64::MAX,
        call_ensures(wipe_audio_cache, (entries, &args), r),
    ensures
        r is Ok <==> entries is Ok,
        r matches Ok(wipe) ==> (wipe.dry_run <==> args@.len() > 0 && args@[0].text@ == "--dry"@),
        entries matches Err(cause) ==> r->Err_0.0@ == "Failed to read track cache: "@ + cause@,
{
}

/// The answer to a wipe tells how many files there were and their size; a dry run is answered as
/// the wipe itself.
pub proof fn wipe_tells_its_counts(wipe: Wipe, size: &str, in_guild_channel: bool, r: Answer)
    requires
        call_ensures(wipe_answer, (&wipe, size, in_guild_channel), r),
    ensures
        in_guild_channel ==> says(
            r,
            "Wiped **"@ + decimal(wipe.items as nat) + "** files, totaling **"@ + size@ + "**"@,
        ),
        !in_guild_channel ==> (r matches Answer::Reply(reply) && reply@
            == "Can only be used in Guild channels"@),
{
}

/// A question for the volume is answered with the volume; a change of it with the old one and the
/// new one, in this order.
pub proof fn volume_is_told(current: &str, new: Option<&str>, in_guild_channel: bool, r: Answer)
    requires
        call_ensures(volume, (current, new, in_guild_channel), r),
    ensures
        in_guild_channel && new is None ==> says(r, "Volume is currently **"@ + current@ + "**"@),
        in_guild_channel && new is Some ==> says(
            r,
            "Volume changed from **"@ + current@ + "** to **"@ + new->0@ + "**"@,
        ),
        !in_guild_channel ==> (r matches Answer::Reply(reply) && reply@
            == "Can only be used in Guild channels"@),
{
}

/// Whether a lower-case word names YouTube.
pub open spec fn names_youtube(lower: Seq<char>) -> bool {
    lower == "youtube"@ || lower == "yt"@
}

/// Whether a lower-case word names SoundCloud.
pub open spec fn names_soundcloud(lower: Seq<char>) -> bool {
    lower == "soundcloud"@ || lower == "sc"@
}

/// A site is read exactly if the next argument names one, in whatever letter case, and is then
/// moved past; without one it is YouTube and nothing is moved past.
pub proof fn site_is_read_if_named(args: &mut Arguments, site: Site)
    requires
        call_ensures(read_site, (args,), site),
    ensures
        ({
            let left = old(args)@;
            let youtube = left.len() > 0 && names_youtube(lowercase(left[0].text@));
            let soundcloud = left.len() > 0 && names_soundcloud(lowercase(left[0].text@));
            &&& site == Site::SoundCloud <==> soundcloud
            &&& youtube || soundcloud ==> final(args)@ == left.drop_first()
            &&& !youtube && !soundcloud ==> final(args)@ == left
        }),
{
    reveal_strlit("youtube");
    reveal_strlit("yt");
    reveal_strlit("soundcloud");
    reveal_strlit("sc");
    assert("yt"@[0] != "sc"@[0]);
    assert("youtube"@.len() == 7 && "soundcloud"@.len() == 10);
}

/// A search in a channel of a guild asks the named site, or YouTube, for all the words that are
/// left behind its name, provided that what this site needs is there; the keys of the other
/// site do not matter.
pub proof fn search_asks_the_named_site(
    args: &mut Arguments,
    means: SearchMeans,
    r: Result<SearchPlan, StringError>,
    reading: &mut Arguments,
    site: Site,
    after: Arguments,
    words: &str,
)
    requires
        old(args)@.len() > 0,
        call_ensures(search, (Place::GuildChannel, args, means), r),
        old(reading)@ == old(args)@,
        call_ensures(read_site, (reading,), site),
        after@ == final(reading)@,
        call_ensures(Arguments::rest, (&after,), words),
    ensures
        ({
            let ready = means.client && (site == Site::YouTube ==> means.youtube_key) && (site
                == Site::SoundCloud ==> means.soundcloud_key);
            &&& r is Ok <==> ready
            &&& ready ==> (r matches Ok(SearchPlan::Query { site: s, query }) && s == site
                && query@ == words@)
            &&& !means.client ==> r->Err_0.0@ == "Could not get Search HTTP Client"@
            &&& means.client && !ready && site == Site::YouTube ==> r->Err_0.0@
                == "Could not find Youtube API Key"@
            &&& means.client && !ready && site == Site::SoundCloud ==> r->Err_0.0@
                == "Could not find SoundCloud API Key"@
        }),
{
}

/// A search without words is answered with how to use it, and outside a channel of a guild
/// nothing is searched for; neither reads any argument.
pub proof fn search_needs_words_and_a_place(
    place: Place,
    args: &mut Arguments,
    means: SearchMeans,
    r: Result<SearchPlan, StringError>,
)
    requires
        place != Place::GuildChannel || old(args)@.len() == 0,
        call_ensures(search, (place, args, means), r),
    ensures
        final(args)@ == old(args)@,
        r matches Ok(SearchPlan::Answer(answer)) && match place {
            Place::GuildChannel => says(
                answer,
                "usage: .s|.search <{youtube,yt}|{soundcloud,sc}> <query>"@,
            ),
            Place::OtherChannel => answer matches Answer::Reply(reply) && reply@
                == "Needs to be executed in a guild channel"@,
            Place::Unknown => answer is Nothing,
        },
{
}

/// The answer to a search lists what was found under the name of the site; a search that failed
/// tells why.
pub proof fn search_lists_what_it_found(
    site: Site,
    results: Result<Vec<SearchResult>, String>,
    r: Result<MessageParams, StringError>,
    list: &[SearchResult],
    listed: String,
)
    requires
        call_ensures(search_answer, (site, results), r),
        results matches Ok(found) ==> found@ == list@,
        call_ensures(format_results, (list,), listed),
    ensures
        r is Ok <==> results is Ok,
        r matches Ok(params) ==> {
            &&& params.message matches Some(message)
            &&& message@ == listed@
            &&& params.title matches Some(title)
            &&& site == Site::YouTube ==> title@ == "**"@ + "YouTube"@ + "** Results"@
            &&& site == Site::SoundCloud ==> title@ == "**"@ + "SoundCloud"@ + "** Results"@
            &&& params.color is None
            &&& params.fields is None
        },
        results matches Err(cause) ==> r->Err_0.0@ == "Failed to search: "@ + cause@,
{
}

/// A command that is for guilds goes on in guilds only.
pub proof fn guild_is_required(in_guild: bool, r: Result<(), StringError>)
    requires
        call_ensures(require_guild, (in_guild,), r),
    ensures
        r is Ok <==> in_guild,
        r matches Err(e) ==> e.0@ == "Only Guilds supported"@,
{
}

/// The bot has left its channel only in a guild, with a voice manager, and if it was in a
/// channel; the first of these that does not hold is what the user is told.
pub proof fn leaving_needs_a_channel(
    in_guild: bool,
    voice_manager: bool,
    left: bool,
    r: Result<(), StringError>,
)
    requires
        call_ensures(leave, (in_guild, voice_manager, left), r),
    ensures
        r is Ok <==> in_guild && voice_manager && left,
        !in_guild ==> r->Err_0.0@ == "Only Guilds supported"@,
        in_guild && !voice_manager ==> r->Err_0.0@ == "Could not find VoiceManager"@,
        in_guild && voice_manager && !left ==> r->Err_0.0@ == "Failed to leave channel"@,
{
}

/// The saved volume of a guild is the one that was saved for it, and not that of another guild.
pub proof fn saved_volume_is_that_of_the_guild<V: Copy>(
    map: HashMap<u64, V>,
    guild_id: u64,
    r: Option<V>,
)
    requires
        call_ensures(saved_volume::<V>, (&map, guild_id), r),
    ensures
        r is Some <==> map@.dom().contains(guild_id),
        r matches Some(v) ==> map@[guild_id] == v,
{
}

/// A guild keeps its queue: the first one that it is given stays, whatever is offered later,
/// and the queues of other guilds are left alone.
pub proof fn guild_keeps_its_queue<T>(
    queues: &mut HashMap<u64, T>,
    guild_id: u64,
    fresh: T,
    r: &T,
    other: u64,
)
    requires
        call_ensures(get_queue_for_guild::<T>, (queues, guild_id, fresh), r),
    ensures
        old(queues)@.dom().contains(guild_id) ==> *r == old(queues)@[guild_id],
        !old(queues)@.dom().contains(guild_id) ==> *r == fresh,
        final(queues)@.dom().contains(guild_id),
        final(queues)@[guild_id] == *r,
        other != guild_id ==> {
            &&& final(queues)@.dom().contains(other) <==> old(queues)@.dom().contains(other)
            &&& old(queues)@.dom().contains(other) ==> final(queues)@[other] == old(queues)@[other]
        },
{
}

} // verus!
