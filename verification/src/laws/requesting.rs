//! The command that adds a track, from its first argument to the track that is added.

use vstd::prelude::*;
use vstd::string::*;

use crate::args::Arguments;
use crate::commands::{read_site, Answer, SearchMeans};
use crate::enqueue::{
    begin, fits, help, join_outcome, join_target, pick, pick_track, prepare, read_query,
    read_request, Action, Enqueue, Event, Found, JoinTarget, Opening, Request, Stage, VoiceContext,
};
use crate::error::{ArgError, StringError};
use crate::laws::commanding::says;
use crate::search::{SearchResult, Site};
use crate::text::{decimal, lowercase};
use crate::track::{url_reading, TrackUrl};

verus! {

/// Whether a text is the given address: whether reading it gives the address in all its parts.
pub open spec fn reads_as(text: Seq<char>, url: TrackUrl) -> bool {
    url_reading(text) matches Ok(reading) && {
        &&& reading.0 == url.text@
        &&& reading.1 is Some <==> url.host is Some
        &&& url.host matches Some(host) ==> reading.1 == Some(host@)
        &&& reading.2 == url.debug@
    }
}

/// The command begins in a guild only. The first argument asks for help exactly if it is `-h` or
/// `--help`, in whatever letter case.
pub proof fn command_begins_in_a_guild(
    in_guild: bool,
    args: Arguments,
    r: Result<Opening, StringError>,
)
    requires
        call_ensures(begin, (in_guild, &args), r),
    ensures
        r is Ok <==> in_guild,
        r matches Err(e) ==> e.0@ == "Only Guilds supported"@,
        r matches Ok(opening) ==> (opening == Opening::Help <==> args@.len() > 0 && (lowercase(
            args@[0].text@,
        ) == "-h"@ || lowercase(args@[0].text@) == "--help"@)),
{
}

/// Help tells how to use the command in a channel of a guild, and elsewhere where it works.
pub proof fn help_is_given(in_guild_channel: bool, r: Answer)
    requires
        call_ensures(help, (in_guild_channel,), r),
    ensures
        in_guild_channel ==> says(r, "`.play <sc|yt (default)> <index (default is 1)> <query>`"@),
        !in_guild_channel ==> (r matches Answer::Reply(reply) && reply@
            == "Play only works in guild channels"@),
{
}

/// The bot goes to the voice channel that the user is in; a manager, a guild and such a channel
/// are needed, and the first of these that is missing is what the user is told.
pub proof fn bot_goes_to_the_user(
    context: VoiceContext,
    r: Result<Option<JoinTarget>, StringError>,
)
    requires
        call_ensures(join_target, (context,), r),
    ensures
        r is Ok <==> context.voice_manager && context.in_guild && context.voice_channel is Some,
        r matches Ok(goal) ==> {
            &&& goal is Some <==> context.text_channel is Some
            &&& goal matches Some(target) ==> {
                &&& Some(target.voice_channel) == context.voice_channel
                &&& Some(target.text_channel) == context.text_channel
            }
        },
        !context.voice_manager ==> r->Err_0.0@ == "Could not find VoiceManager"@,
        context.voice_manager && !context.in_guild ==> r->Err_0.0@ == "Only Guilds supported"@,
        context.voice_manager && context.in_guild && context.voice_channel is None ==> r->Err_0.0@
            == "You are not in a voice channel"@,
{
}

/// Once the bot has joined, the queue notes the channel of the command; if it could not join, the
/// user is told which channel that was.
pub proof fn joined_channel_is_noted(target: JoinTarget, joined: bool, r: Result<u64, StringError>)
    requires
        call_ensures(join_outcome, (target, joined), r),
    ensures
        r is Ok <==> joined,
        r matches Ok(channel) ==> channel == target.text_channel,
        r matches Err(e) ==> e.0@ == "Failed to join "@ + decimal(target.voice_channel as nat),
{
}

/// A bot that is in a channel stays there; one that is not goes to the user. All that any
/// search may need has to be there, and the first thing that is missing is what the user is
/// told.
pub proof fn command_is_prepared(
    means: SearchMeans,
    connected: bool,
    context: VoiceContext,
    r: Result<Option<JoinTarget>, StringError>,
    going: Result<Option<JoinTarget>, StringError>,
)
    requires
        call_ensures(prepare, (means, connected, context), r),
        call_ensures(join_target, (context,), going),
    ensures
        !means.soundcloud_key ==> r is Err && r->Err_0.0@ == "Could not find SoundCloud API Key"@,
        means.soundcloud_key && !means.youtube_key ==> r is Err && r->Err_0.0@
            == "Could not find Youtube API Key"@,
        means.soundcloud_key && means.youtube_key && !means.client ==> r is Err && r->Err_0.0@
            == "Could not get Search HTTP Client"@,
        means.soundcloud_key && means.youtube_key && means.client ==> if connected {
            r matches Ok(goal) && goal is None
        } else {
            &&& r is Ok <==> going is Ok
            &&& r matches Ok(goal) ==> going == Ok::<Option<JoinTarget>, StringError>(goal)
            &&& r matches Err(e) ==> going->Err_0.0@ == e.0@
        },
{
}

/// What is searched for is read from left to right: the site, if one is named; then the number of
/// the wanted result, if one is written, otherwise one; then all the words that are left.
pub proof fn query_is_read_from_left_to_right(
    args: &mut Arguments,
    r: (Site, usize, String),
    sites: &mut Arguments,
    site: Site,
    numbers: &mut Arguments,
    number: Result<usize, ArgError>,
    after: Arguments,
    words: &str,
)
    requires
        call_ensures(read_query, (args,), r),
        old(sites)@ == old(args)@,
        call_ensures(read_site, (sites,), site),
        old(numbers)@ == final(sites)@,
        call_ensures(Arguments::single_number, (numbers,), number),
        after@ == final(numbers)@,
        call_ensures(Arguments::rest, (&after,), words),
    ensures
        r.0 == site,
        number matches Ok(n) ==> r.1 == n,
        number is Err ==> r.1 == 1,
        r.2@ == words@,
        final(args)@ == final(numbers)@,
{
}

/// A first argument that is an address names the track to add; anything else is searched for.
pub proof fn address_names_the_track(
    args: &mut Arguments,
    r: Request,
    searching: &mut Arguments,
    query: (Site, usize, String),
)
    requires
        call_ensures(read_request, (args,), r),
        old(searching)@ == old(args)@,
        call_ensures(read_query, (searching,), query),
    ensures
        old(args)@.len() > 0 && url_reading(old(args)@[0].text@) is Ok ==> {
            &&& r matches Request::Track(url)
            &&& reads_as(old(args)@[0].text@, url)
            &&& final(args)@ == old(args)@
        },
        old(args)@.len() == 0 || url_reading(old(args)@[0].text@) is Err ==> {
            &&& r matches Request::Search { site, index, query: words }
            &&& site == query.0
            &&& index == query.1
            &&& words@ == query.2@
            &&& final(args)@ == final(searching)@
        },
{
}

/// The number of a result picks that result, counted from one, and any other number the first.
pub proof fn number_picks_its_result(index: usize, count: usize, r: usize)
    requires
        count > 0,
        call_ensures(pick, (index, count), r),
    ensures
        1 <= index <= count ==> r + 1 == index,
        index == 0 || index > count ==> r == 0,
        r < count,
{
}

/// The track that is added is the one at the address of the picked result, and of no other.
/// Without results the user is told so; an address that cannot be read, or a search that
/// failed, is an error that says why.
pub proof fn picked_result_is_the_track(
    results: Result<Vec<SearchResult>, String>,
    index: usize,
    r: Result<Found, StringError>,
    count: usize,
    position: usize,
)
    requires
        call_ensures(pick_track, (results, index), r),
        results matches Ok(list) ==> list@.len() == count,
        count > 0 ==> call_ensures(pick, (index, count), position),
    ensures
        results matches Err(cause) ==> r is Err && r->Err_0.0@ == "Failed to search: "@ + cause@,
        results matches Ok(list) ==> if list@.len() == 0 {
            &&& r matches Ok(Found::Answer(Answer::Reply(reply)))
            &&& reply@ == "No search results found"@
        } else {
            match url_reading(list@[position as int].url@) {
                Ok(_) => r matches Ok(Found::Track(url)) && reads_as(
                    list@[position as int].url@,
                    url,
                ),
                Err(cause) => r is Err && r->Err_0.0@ == "Failed to parse URL for search result "@
                    + decimal(position as nat) + ": "@ + cause,
            }
        },
{
}

/// The command starts with its arguments, before anything has happened.
pub proof fn command_starts_at_the_start(args: Arguments, command: Enqueue, stage: Stage)
    requires
        call_ensures(Enqueue::new, (args,), command),
        call_ensures(Enqueue::stage, (&command,), stage),
    ensures
        command@.left == args@,
        command@.stage == stage,
        stage == Stage::Starting,
{
}

/// At every stage but the last there is one kind of event that can come, and any event of that
/// kind is taken; a command that is done takes none.
pub proof fn every_stage_takes_its_event(stage: Stage, event: Event)
    ensures
        fits(stage, event) <==> {
            ||| stage is Starting && event is Started
            ||| stage is Helping && event is ChannelKnown
            ||| stage is Preparing && event is ContextKnown
            ||| stage is Joining && event is Joined
            ||| stage is Connecting && event is Connected
            ||| stage is Searching && event is Searched
        },
{
}

/// The first step follows how the command begins: help asks for the channel first, a track for
/// what there is to work with, and a command outside a guild ends with the error.
pub proof fn first_step_begins(
    command: &mut Enqueue,
    in_guild: bool,
    r: Result<Action, StringError>,
    args: Arguments,
    opening: Result<Opening, StringError>,
)
    requires
        old(command)@.stage == Stage::Starting,
        call_ensures(Enqueue::step, (command, Event::Started { in_guild }), r),
        args@ == old(command)@.left,
        call_ensures(begin, (in_guild, &args), opening),
    ensures
        final(command)@.left == old(command)@.left,
        opening == Ok::<Opening, StringError>(Opening::Help) ==> (r matches Ok(Action::AskChannel)
            && final(command)@.stage == Stage::Helping),
        opening == Ok::<Opening, StringError>(Opening::Play) ==> (r matches Ok(Action::AskContext)
            && final(command)@.stage == Stage::Preparing),
        opening matches Err(e) ==> r is Err && r->Err_0.0@ == e.0@ && final(command)@.stage
            == Stage::Done,
{
}

/// A question for help ends with help.
pub proof fn help_ends_the_command(
    command: &mut Enqueue,
    in_guild_channel: bool,
    r: Result<Action, StringError>,
    answer: Answer,
)
    requires
        old(command)@.stage == Stage::Helping,
        call_ensures(Enqueue::step, (command, Event::ChannelKnown { in_guild_channel }), r),
        call_ensures(help, (in_guild_channel,), answer),
    ensures
        final(command)@.stage == Stage::Done,
        r matches Ok(Action::Answer(given)) && match (given, answer) {
            (Answer::Send(a), Answer::Send(b)) => a.message->0@ == b.message->0@ && says(
                given,
                b.message->0@,
            ),
            (Answer::Reply(a), Answer::Reply(b)) => a@ == b@,
            _ => false,
        },
{
}

/// What is to be heard: a track that is named is added and ends the command, anything else is
/// searched for, and the number of the wanted result is kept for when results come.
pub open spec fn does_as_asked(
    request: Request,
    r: Result<Action, StringError>,
    stage: Stage,
) -> bool {
    match request {
        Request::Track(url) => {
            &&& r matches Ok(Action::Add(added))
            &&& added.text@ == url.text@
            &&& added.debug@ == url.debug@
            &&& added.host is Some <==> url.host is Some
            &&& added.host matches Some(host) ==> url.host->0@ == host@
            &&& stage == Stage::Done
        },
        Request::Search { site, index, query } => {
            &&& r matches Ok(Action::Search { site: s, query: words })
            &&& s == site
            &&& words@ == query@
            &&& stage == Stage::Searching(index)
        },
    }
}

/// The second step joins a channel if the bot has to go to one, and otherwise does what was asked
/// for; what is missing ends the command with the error.
pub proof fn prepared_command_joins_or_goes_on(
    command: &mut Enqueue,
    means: SearchMeans,
    connected: bool,
    voice: VoiceContext,
    r: Result<Action, StringError>,
    goal: Result<Option<JoinTarget>, StringError>,
    reading: &mut Arguments,
    request: Request,
)
    requires
        old(command)@.stage == Stage::Preparing,
        call_ensures(
            Enqueue::step,
            (command, Event::ContextKnown { means, connected, voice }),
            r,
        ),
        call_ensures(prepare, (means, connected, voice), goal),
        old(reading)@ == old(command)@.left,
        call_ensures(read_request, (reading,), request),
    ensures
        goal matches Ok(Some(target)) ==> {
            &&& r == Ok::<Action, StringError>(Action::Join(target))
            &&& final(command)@.stage == Stage::Joining(target)
            &&& final(command)@.left == old(command)@.left
        },
        goal matches Ok(None) ==> does_as_asked(request, r, final(command)@.stage)
            && final(command)@.left == final(reading)@,
        goal matches Err(e) ==> r is Err && r->Err_0.0@ == e.0@ && final(command)@.stage
            == Stage::Done,
{
}

/// A bot that has joined has the queue note the channel; one that has not ends the command with
/// the error.
pub proof fn joining_notes_the_channel(
    command: &mut Enqueue,
    target: JoinTarget,
    joined: bool,
    r: Result<Action, StringError>,
    outcome: Result<u64, StringError>,
)
    requires
        old(command)@.stage == Stage::Joining(target),
        call_ensures(Enqueue::step, (command, Event::Joined(joined)), r),
        call_ensures(join_outcome, (target, joined), outcome),
    ensures
        final(command)@.left == old(command)@.left,
        outcome matches Ok(channel) ==> r == Ok::<Action, StringError>(Action::Connect(channel))
            && final(command)@.stage == Stage::Connecting,
        outcome matches Err(e) ==> r is Err && r->Err_0.0@ == e.0@ && final(command)@.stage
            == Stage::Done,
{
}

/// Once the channel is noted, the command does what was asked for.
pub proof fn connected_command_goes_on(
    command: &mut Enqueue,
    r: Result<Action, StringError>,
    reading: &mut Arguments,
    request: Request,
)
    requires
        old(command)@.stage == Stage::Connecting,
        call_ensures(Enqueue::step, (command, Event::Connected), r),
        old(reading)@ == old(command)@.left,
        call_ensures(read_request, (reading,), request),
    ensures
        does_as_asked(request, r, final(command)@.stage),
        final(command)@.left == final(reading)@,
{
}

/// Results end the command: with the track of the result whose number was asked for, with the
/// answer that there are none, or with the error.
pub proof fn results_end_the_command(
    command: &mut Enqueue,
    index: usize,
    results: Result<Vec<SearchResult>, String>,
    r: Result<Action, StringError>,
    found: Result<Found, StringError>,
)
    requires
        old(command)@.stage == Stage::Searching(index),
        call_ensures(Enqueue::step, (command, Event::Searched(results)), r),
        call_ensures(pick_track, (results, index), found),
    ensures
        final(command)@.stage == Stage::Done,
        found matches Ok(Found::Track(url)) ==> (r matches Ok(Action::Add(added)) && added.text@
            == url.text@ && (added.host is Some <==> url.host is Some) && (
        added.host matches Some(host) ==> url.host->0@ == host@) && added.debug@ == url.debug@),
        found matches Ok(Found::Answer(Answer::Reply(text))) ==> (r matches Ok(
            Action::Answer(Answer::Reply(reply)),
        ) && reply@ == text@),
        found matches Err(e) ==> r is Err && r->Err_0.0@ == e.0@,
{
}

} // verus!
