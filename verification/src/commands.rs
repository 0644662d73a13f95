//! The commands: how their arguments are read, what stands in their way, and what is
//! answered.

use std::collections::HashMap;
use vstd::prelude::*;
use vstd::string::*;
use vstd::utf8::is_ascii_chars;

use crate::args::{rest_text, Argument, Arguments};
use crate::error::{shown_arg_error, shown_parse_error, ArgError, StringError};
use crate::message::MessageParams;
use crate::queue::{queue_text, Queue};
use crate::search::{format_results, results_text, site_named, SearchResult, Site};
use crate::text::{
    ascii_lower, decimal, lowercase, number_error, push_decimal, same_text, written_number,
};

verus! {

/// What a command cannot do without.
#[derive(Debug, Clone, Copy, PartialEq, Eq, Structural)]
pub enum Missing {
    Guild,
    GuildChannel,
    VoiceManager,
    VoiceChannel,
    SearchClient,
    YouTubeKey,
    SoundCloudKey,
    QueueMap,
    /// The channel that was to be left.
    LeftChannel,
}

/// What is said when something is missing.
pub open spec fn missing_text(what: Missing) -> Seq<char> {
    match what {
        Missing::Guild => "Only Guilds supported"@,
        Missing::GuildChannel => "Not in a guild channel"@,
        Missing::VoiceManager => "Could not find VoiceManager"@,
        Missing::VoiceChannel => "You are not in a voice channel"@,
        Missing::SearchClient => "Could not get Search HTTP Client"@,
        Missing::YouTubeKey => "Could not find Youtube API Key"@,
        Missing::SoundCloudKey => "Could not find SoundCloud API Key"@,
        Missing::QueueMap => "Could not find Queue map in Context"@,
        Missing::LeftChannel => "Failed to leave channel"@,
    }
}

/// The error that says what is missing.
pub fn missing(what: Missing) -> (r: StringError)
    ensures
        r.0@ == missing_text(what),
{
    match what {
        Missing::Guild => StringError::from("Only Guilds supported"),
        Missing::GuildChannel => StringError::from("Not in a guild channel"),
        Missing::VoiceManager => StringError::from("Could not find VoiceManager"),
        Missing::VoiceChannel => StringError::from("You are not in a voice channel"),
        Missing::SearchClient => StringError::from("Could not get Search HTTP Client"),
        Missing::YouTubeKey => StringError::from("Could not find Youtube API Key"),
        Missing::SoundCloudKey => StringError::from("Could not find SoundCloud API Key"),
        Missing::QueueMap => StringError::from("Could not find Queue map in Context"),
        Missing::LeftChannel => StringError::from("Failed to leave channel"),
    }
}

/// A piece of work outside the library that did not succeed.
#[derive(Debug, Clone, Copy, PartialEq, Eq, Structural)]
pub enum Work {
    SendMessage,
    Search,
    ReadCache,
    RemoveCache,
    CreateCache,
}

/// What is said of work that did not succeed, before its cause.
pub open spec fn work_text(work: Work) -> Seq<char> {
    match work {
        Work::SendMessage => "Failed to send message: "@,
        Work::Search => "Failed to search: "@,
        Work::ReadCache => "Failed to read track cache: "@,
        Work::RemoveCache => "Failed to remove cached track dir: "@,
        Work::CreateCache => "Failed to create cached track dir: "@,
    }
}

/// The error that says which work did not succeed, and why.
pub fn failed(work: Work, cause: &str) -> (r: StringError)
    ensures
        r.0@ == work_text(work) + cause@,
{
    let mut text = match work {
        Work::SendMessage => "Failed to send message: ".to_owned(),
        Work::Search => "Failed to search: ".to_owned(),
        Work::ReadCache => "Failed to read track cache: ".to_owned(),
        Work::RemoveCache => "Failed to remove cached track dir: ".to_owned(),
        Work::CreateCache => "Failed to create cached track dir: ".to_owned(),
    };
    text.append(cause);
    StringError(text)
}

/// What goes back to the user.
#[derive(Debug)]
pub enum Answer {
    /// A message to the channel.
    Send(MessageParams),
    /// A plain reply to the command.
    Reply(String),
    Nothing,
}

/// Whether an answer is a message of the given text only.
pub open spec fn sends_text(answer: Answer, text: Seq<char>) -> bool {
    &&& answer matches Answer::Send(params)
    &&& params.message matches Some(message)
    &&& message@ == text
    &&& params.title is None
    &&& params.color is None
    &&& params.fields is None
}

/// Whether an answer is a plain reply of the given text.
pub open spec fn replies(answer: Answer, text: Seq<char>) -> bool {
    answer matches Answer::Reply(reply) && reply@ == text
}

/// Answers with a text where that is possible: in a channel of a guild.
pub fn answer_in_guild(text: String, in_guild_channel: bool) -> (r: Answer)
    ensures
        if in_guild_channel {
            sends_text(r, text@)
        } else {
            replies(r, "Can only be used in Guild channels"@)
        },
{
    if in_guild_channel {
        Answer::Send(MessageParams::text(text))
    } else {
        Answer::Reply("Can only be used in Guild channels".to_owned())
    }
}

/// Goes on only in a guild.
pub fn require_guild(in_guild: bool) -> (r: Result<(), StringError>)
    ensures
        match r {
            Ok(()) => in_guild,
            Err(e) => !in_guild && e.0@ == missing_text(Missing::Guild),
        },
{
    if in_guild {
        Ok(())
    } else {
        Err(missing(Missing::Guild))
    }
}

/// One entry of the directory of saved tracks: a file with its length, as far as that could
/// be read, or an entry that could not be read at all.
#[derive(Debug, Clone, Copy, PartialEq, Eq, Structural)]
pub enum CacheEntry {
    File(Option<u64>),
    Unreadable,
}

/// The length of all entries together.
pub open spec fn cached_bytes(entries: Seq<CacheEntry>) -> nat
    decreases entries.len(),
{
    if entries.len() == 0 {
        0
    } else {
        cached_bytes(entries.drop_last()) + match entries.last() {
            CacheEntry::File(Some(len)) => len as nat,
            _ => 0,
        }
    }
}

/// How many entries are files.
pub open spec fn cached_items(entries: Seq<CacheEntry>) -> nat
    decreases entries.len(),
{
    if entries.len() == 0 {
        0
    } else {
        cached_items(entries.drop_last()) + match entries.last() {
            CacheEntry::File(_) => 1nat,
            CacheEntry::Unreadable => 0,
        }
    }
}

/// What wiping the saved tracks comes to. In a dry run nothing is removed.
#[derive(Debug, Clone, Copy, PartialEq, Eq, Structural)]
pub struct Wipe {
    pub total_bytes: u64,
    pub items: usize,
    pub dry_run: bool,
}

fn cache_totals(entries: &Vec<CacheEntry>) -> (r: (u64, usize))
    requires
        cached_bytes(entries@) <= u64::MAX,
    ensures
        r.0 == cached_bytes(entries@),
        r.1 == cached_items(entries@),
{
    let mut bytes: u64 = 0;
    let mut items: usize = 0;
    let mut i: usize = 0;
    assert(entries@.take(0) =~= Seq::empty());
    while i < entries.len()
        invariant
            i <= entries@.len(),
            bytes == cached_bytes(entries@.take(i as int)),
            items == cached_items(entries@.take(i as int)),
            items <= i,
            cached_bytes(entries@) <= u64::MAX,
        decreases entries@.len() - i,
    {
        proof {
            lemma_cached_bytes_grow(entries@, i + 1);
            assert(entries@.take(i + 1).drop_last() =~= entries@.take(i as int));
        }
        match entries[i] {
            CacheEntry::File(len) => {
                if let Some(len) = len {
                    bytes = bytes + len;
                }
                items = items + 1;
            },
            CacheEntry::Unreadable => {},
        }
        i = i + 1;
    }
    assert(entries@.take(i as int) =~= entries@);
    (bytes, items)
}

proof fn lemma_cached_bytes_grow(entries: Seq<CacheEntry>, i: int)
    requires
        0 <= i <= entries.len(),
    ensures
        cached_bytes(entries.take(i)) <= cached_bytes(entries),
    decreases entries.len() - i,
{
    if i < entries.len() {
        lemma_cached_bytes_grow(entries, i + 1);
        assert(entries.take(i + 1).drop_last() =~= entries.take(i));
    } else {
        assert(entries.take(i) =~= entries);
    }
}

/// Whether the first argument asks for a dry run.
pub open spec fn asks_for_dry_run(left: Seq<Argument>) -> bool {
    left.len() > 0 && left[0].text@ == "--dry"@
}

/// Whether `r` is the plan for wiping a directory: with its counts, and as a dry run exactly if
/// the arguments ask for one. A directory that could not be read gives an error and no plan.
pub open spec fn is_wipe_plan(
    entries: Result<Vec<CacheEntry>, String>,
    left: Seq<Argument>,
    r: Result<Wipe, StringError>,
) -> bool {
    match entries {
        Ok(list) => {
            &&& r matches Ok(wipe)
            &&& wipe.total_bytes == cached_bytes(list@)
            &&& wipe.items == cached_items(list@)
            &&& wipe.dry_run == asks_for_dry_run(left)
        },
        Err(cause) => r matches Err(e) && e.0@ == work_text(Work::ReadCache) + cause@,
    }
}

/// Plans the wiping of the saved tracks from what their directory holds, or from why it could
/// not be read.
pub fn wipe_audio_cache(entries: Result<Vec<CacheEntry>, String>, args: &Arguments) -> (r: Result<
    Wipe,
    StringError,
>)
    requires
        entries matches Ok(list) ==> cached_bytes(list@) <= u64::MAX,
    ensures
        is_wipe_plan(entries, args@, r),
{
    match entries {
        Ok(list) => {
            let (total_bytes, items) = cache_totals(&list);
            let dry_run = match args.current() {
                Some(text) => same_text(text, "--dry"),
                None => false,
            };
            Ok(Wipe { total_bytes, items, dry_run })
        },
        Err(cause) => Err(failed(Work::ReadCache, cause.as_str())),
    }
}

/// What is said of a wipe; `size` is the length of all files in words.
pub open spec fn wipe_text(items: nat, size: Seq<char>) -> Seq<char> {
    "Wiped **"@ + decimal(items) + "** files, totaling **"@ + size + "**"@
}

/// What is answered to a wipe; `size` is the length of all files in words.
pub fn wipe_answer(wipe: &Wipe, size: &str, in_guild_channel: bool) -> (r: Answer)
    ensures
        if in_guild_channel {
            sends_text(r, wipe_text(wipe.items as nat, size@))
        } else {
            replies(r, "Can only be used in Guild channels"@)
        },
{
    let mut text = "Wiped **".to_owned();
    push_decimal(&mut text, wipe.items as u64);
    text.append("** files, totaling **");
    text.append(size);
    text.append("**");
    answer_in_guild(text, in_guild_channel)
}

/// A dry run tells what a wipe would do: for one directory both have the same counts, and with
/// them the same answer. Only the full one removes anything, and a directory that could not be
/// read gives neither.
pub proof fn dry_run_counts_like_a_wipe(
    entries: Result<Vec<CacheEntry>, String>,
    dry_args: Seq<Argument>,
    args: Seq<Argument>,
    dry: Result<Wipe, StringError>,
    full: Result<Wipe, StringError>,
    size: Seq<char>,
)
    requires
        asks_for_dry_run(dry_args),
        !asks_for_dry_run(args),
        is_wipe_plan(entries, dry_args, dry),
        is_wipe_plan(entries, args, full),
    ensures
        dry is Ok <==> entries is Ok,
        full is Ok <==> entries is Ok,
        entries is Ok ==> {
            &&& dry->Ok_0.dry_run
            &&& !full->Ok_0.dry_run
            &&& dry->Ok_0.items == full->Ok_0.items
            &&& dry->Ok_0.total_bytes == full->Ok_0.total_bytes
            &&& wipe_text(dry->Ok_0.items as nat, size) == wipe_text(
                full->Ok_0.items as nat,
                size,
            )
        },
{
}

/// What is said of a volume, before and after it was changed.
pub open spec fn volume_text(current: Seq<char>, new: Option<Seq<char>>) -> Seq<char> {
    match new {
        Some(new) => "Volume changed from **"@ + current + "** to **"@ + new + "**"@,
        None => "Volume is currently **"@ + current + "**"@,
    }
}

/// What is answered to a question for the volume, or to a change of it. Volumes are given as
/// they are shown.
pub fn volume(current: &str, new: Option<&str>, in_guild_channel: bool) -> (r: Answer)
    ensures
        if in_guild_channel {
            sends_text(
                r,
                volume_text(
                    current@,
                    match new {
                        Some(new) => Some(new@),
                        None => None,
                    },
                ),
            )
        } else {
            replies(r, "Can only be used in Guild channels"@)
        },
{
    let text = match new {
        Some(new) => {
            let mut text = "Volume changed from **".to_owned();
            text.append(current);
            text.append("** to **");
            text.append(new);
            text.append("**");
            text
        },
        None => {
            let mut text = "Volume is currently **".to_owned();
            text.append(current);
            text.append("**");
            text
        },
    };
    answer_in_guild(text, in_guild_channel)
}

/// The site that arguments ask for: the one that the first of them names, otherwise YouTube.
pub open spec fn asked_site(left: Seq<Argument>) -> Site {
    match named_site(left) {
        Some(site) => site,
        None => Site::YouTube,
    }
}

/// The site that the first argument names.
pub open spec fn named_site(left: Seq<Argument>) -> Option<Site> {
    if left.len() == 0 {
        None
    } else {
        site_named(lowercase(left[0].text@))
    }
}

/// The arguments behind the name of a site.
pub open spec fn after_site(left: Seq<Argument>) -> Seq<Argument> {
    if named_site(left) is Some {
        left.drop_first()
    } else {
        left
    }
}

/// Whether lower case is what it should be for the first argument, if that is ASCII text.
pub open spec fn ascii_first(left: Seq<Argument>) -> bool {
    left.len() > 0 && is_ascii_chars(left[0].text@) ==> lowercase(left[0].text@)
        == left[0].text@.map_values(|c: char| ascii_lower(c))
}

/// Reads the name of a site, and moves past it if there is one.
pub fn read_site(args: &mut Arguments) -> (r: Site)
    ensures
        r == asked_site(old(args)@),
        final(args)@ == after_site(old(args)@),
        ascii_first(old(args)@),
{
    let named = match args.current() {
        Some(text) => Site::from_str(text),
        None => Err(()),
    };
    match named {
        Ok(site) => {
            args.advance();
            site
        },
        Err(()) => Site::YouTube,
    }
}

/// Where a command was given.
#[derive(Debug, Clone, Copy, PartialEq, Eq, Structural)]
pub enum Place {
    GuildChannel,
    OtherChannel,
    Unknown,
}

/// What a search asks for.
#[derive(Debug)]
pub enum SearchPlan {
    /// Nothing is searched for; this is the answer.
    Answer(Answer),
    Query { site: Site, query: String },
}

/// What searches need from outside.
#[derive(Debug, Clone, Copy, PartialEq, Eq, Structural)]
pub struct SearchMeans {
    pub client: bool,
    pub youtube_key: bool,
    pub soundcloud_key: bool,
}

/// What a search on a site lacks.
pub open spec fn search_lacks(means: SearchMeans, site: Site) -> Option<Missing> {
    if !means.client {
        Some(Missing::SearchClient)
    } else if site == Site::YouTube && !means.youtube_key {
        Some(Missing::YouTubeKey)
    } else if site == Site::SoundCloud && !means.soundcloud_key {
        Some(Missing::SoundCloudKey)
    } else {
        None
    }
}

/// Plans a search.
pub fn search(place: Place, args: &mut Arguments, means: SearchMeans) -> (r: Result<
    SearchPlan,
    StringError,
>)
    ensures
        match place {
            Place::Unknown => r matches Ok(SearchPlan::Answer(Answer::Nothing)),
            Place::OtherChannel => r matches Ok(SearchPlan::Answer(answer)) && replies(
                answer,
                "Needs to be executed in a guild channel"@,
            ),
            Place::GuildChannel => if old(args)@.len() == 0 {
                r matches Ok(SearchPlan::Answer(answer)) && sends_text(
                    answer,
                    "usage: .s|.search <{youtube,yt}|{soundcloud,sc}> <query>"@,
                )
            } else {
                match search_lacks(means, asked_site(old(args)@)) {
                    Some(what) => r matches Err(e) && e.0@ == missing_text(what),
                    None => {
                        &&& r matches Ok(SearchPlan::Query { site, query })
                        &&& site == asked_site(old(args)@)
                        &&& query@ == rest_text(after_site(old(args)@))
                    },
                }
            },
        },
        final(args)@ == if place == Place::GuildChannel && old(args)@.len() > 0 && means.client {
            after_site(old(args)@)
        } else {
            old(args)@
        },
        place == Place::GuildChannel && means.client ==> ascii_first(old(args)@),
{
    match place {
        Place::Unknown => Ok(SearchPlan::Answer(Answer::Nothing)),
        Place::OtherChannel => Ok(
            SearchPlan::Answer(
                Answer::Reply("Needs to be executed in a guild channel".to_owned()),
            ),
        ),
        Place::GuildChannel => {
            if args.is_empty() {
                let usage = "usage: .s|.search <{youtube,yt}|{soundcloud,sc}> <query>".to_owned();
                return Ok(SearchPlan::Answer(Answer::Send(MessageParams::text(usage))));
            }
            if !means.client {
                return Err(missing(Missing::SearchClient));
            }
            let site = read_site(args);
            match site {
                Site::YouTube => if !means.youtube_key {
                    return Err(missing(Missing::YouTubeKey));
                },
                Site::SoundCloud => if !means.soundcloud_key {
                    return Err(missing(Missing::SoundCloudKey));
                },
            }
            Ok(SearchPlan::Query { site, query: args.rest().to_owned() })
        },
    }
}

/// What is answered to a search, or why it failed.
pub fn search_answer(site: Site, results: Result<Vec<SearchResult>, String>) -> (r: Result<
    MessageParams,
    StringError,
>)
    ensures
        match results {
            Ok(list) => {
                &&& r matches Ok(params)
                &&& params.title matches Some(title)
                &&& title@ == "**"@ + site.shown() + "** Results"@
                &&& params.message matches Some(message)
                &&& message@ == results_text(list@)
                &&& params.color is None
                &&& params.fields is None
            },
            Err(cause) => r matches Err(e) && e.0@ == work_text(Work::Search) + cause@,
        },
{
    match results {
        Ok(list) => {
            let mut title = "**".to_owned();
            title.append(site.name());
            title.append("** Results");
            Ok(
                MessageParams {
                    fields: None,
                    message: Some(format_results(list.as_slice())),
                    title: Some(title),
                    color: None,
                },
            )
        },
        Err(cause) => Err(failed(Work::Search, cause.as_str())),
    }
}

/// What is answered to a question for the queue.
pub fn list_queue(queue: &Queue, in_guild_channel: bool) -> (r: Result<MessageParams, StringError>)
    ensures
        if in_guild_channel {
            r matches Ok(params) && sends_text(Answer::Send(params), queue_text(queue@))
        } else {
            r matches Err(e) && e.0@ == missing_text(Missing::GuildChannel)
        },
{
    if in_guild_channel {
        Ok(MessageParams::text(queue.to_string()))
    } else {
        Err(missing(Missing::GuildChannel))
    }
}

/// What is said when the number of a track cannot be read.
pub open spec fn bad_index_text(cause: Seq<char>) -> Seq<char> {
    "Invalid index provided ("@ + cause + "). Usage: .remove <idx>"@
}

/// Reads the number of the track that is to be removed, and moves past it.
pub fn read_remove_index(args: &mut Arguments) -> (r: Result<usize, StringError>)
    ensures
        if old(args)@.len() == 0 {
            &&& r matches Err(e)
            &&& e.0@ == bad_index_text(shown_arg_error(ArgError::Eos))
            &&& final(args)@ == old(args)@
        } else {
            match written_number(old(args)@[0].text@) {
                Some(v) if v <= usize::MAX => {
                    &&& r matches Ok(n)
                    &&& n == v
                    &&& final(args)@ == old(args)@.drop_first()
                },
                _ => {
                    &&& r matches Err(e)
                    &&& e.0@ == bad_index_text(
                        shown_parse_error(number_error(old(args)@[0].text@)),
                    )
                    &&& final(args)@ == old(args)@
                },
            }
        },
{
    match args.single_number() {
        Ok(n) => Ok(n),
        Err(e) => {
            let mut text = "Invalid index provided (".to_owned();
            text.append(e.to_string().as_str());
            text.append("). Usage: .remove <idx>");
            Err(StringError(text))
        },
    }
}

/// What keeps the bot from having left its channel; `left` says whether it was in one.
pub open spec fn leave_lacks(in_guild: bool, voice_manager: bool, left: bool) -> Option<Missing> {
    if !in_guild {
        Some(Missing::Guild)
    } else if !voice_manager {
        Some(Missing::VoiceManager)
    } else if !left {
        Some(Missing::LeftChannel)
    } else {
        None
    }
}

/// Checks that the bot has left its channel.
pub fn leave(in_guild: bool, voice_manager: bool, left: bool) -> (r: Result<(), StringError>)
    ensures
        match r {
            Ok(()) => leave_lacks(in_guild, voice_manager, left) is None,
            Err(e) => leave_lacks(in_guild, voice_manager, left) matches Some(what) && e.0@
                == missing_text(what),
        },
{
    match require_guild(in_guild) {
        Ok(()) => {},
        Err(e) => {
            return Err(e);
        },
    }
    if !voice_manager {
        return Err(missing(Missing::VoiceManager));
    }
    if !left {
        return Err(missing(Missing::LeftChannel));
    }
    Ok(())
}

/// The volume that was saved for a guild, if there is one.
pub fn saved_volume<V: Copy>(map: &HashMap<u64, V>, guild_id: u64) -> (r: Option<V>)
    ensures
        r == if map@.contains_key(guild_id) {
            Some(map@[guild_id])
        } else {
            None
        },
{
    match map.get(&guild_id) {
        Some(volume) => Some(*volume),
        None => None,
    }
}

/// The queue of a guild: the one that there is, or `fresh`, which is kept from then on.
pub fn get_queue_for_guild<T>(queues: &mut HashMap<u64, T>, guild_id: u64, fresh: T) -> (r: &T)
    ensures
        final(queues)@ == if old(queues)@.contains_key(guild_id) {
            old(queues)@
        } else {
            old(queues)@.insert(guild_id, fresh)
        },
        *r == final(queues)@[guild_id],
{
    if !queues.contains_key(&guild_id) {
        queues.insert(guild_id, fresh);
    }
    queues.get(&guild_id).unwrap()
}

} // verus!
