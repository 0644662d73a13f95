//! The command that adds a track: by its address, or by searching for it.

use vstd::prelude::*;
use vstd::string::*;

use crate::args::{rest_text, Argument, Arguments};
use crate::commands::{
    after_site, ascii_first, asked_site, failed, missing, missing_text, named_site, read_site,
    replies, require_guild, sends_text, work_text, Answer, Missing, SearchMeans, Work,
};
use crate::error::StringError;
use crate::message::MessageParams;
use crate::search::{SearchResult, Site};
use crate::text::{
    decimal, decimal_reads_back, lowercase, push_decimal, same_text, to_lowercase, written_number,
};
use crate::track::{is_url_reading, parse_url, url_reading, TrackUrl};

verus! {

/// Whether a lower-case text asks for help.
pub open spec fn help_flag(lower: Seq<char>) -> bool {
    lower == "--help"@ || lower == "-h"@
}

/// Whether a lower-case text asks for help.
pub fn is_help_flag(lower: &str) -> (r: bool)
    ensures
        r == help_flag(lower@),
{
    same_text(lower, "--help") || same_text(lower, "-h")
}

/// How the command begins.
#[derive(Debug, Clone, Copy, PartialEq, Eq, Structural)]
pub enum Opening {
    /// The user wants to know how to use the command.
    Help,
    /// The user wants a track.
    Play,
}

/// Begins the command: only in a guild, and help comes before anything else.
pub fn begin(in_guild: bool, args: &Arguments) -> (r: Result<Opening, StringError>)
    ensures
        match r {
            Ok(opening) => in_guild && opening == if args@.len() > 0 && help_flag(
                lowercase(args@[0].text@),
            ) {
                Opening::Help
            } else {
                Opening::Play
            },
            Err(e) => !in_guild && e.0@ == missing_text(Missing::Guild),
        },
        in_guild ==> ascii_first(args@),
{
    match require_guild(in_guild) {
        Ok(()) => {},
        Err(e) => {
            return Err(e);
        },
    }
    match args.current() {
        Some(text) => {
            let lower = to_lowercase(text);
            if is_help_flag(lower.as_str()) {
                Ok(Opening::Help)
            } else {
                Ok(Opening::Play)
            }
        },
        None => Ok(Opening::Play),
    }
}

/// What is answered to a question for help.
pub fn help(in_guild_channel: bool) -> (r: Answer)
    ensures
        if in_guild_channel {
            sends_text(r, "`.play <sc|yt (default)> <index (default is 1)> <query>`"@)
        } else {
            replies(r, "Play only works in guild channels"@)
        },
{
    if in_guild_channel {
        Answer::Send(
            MessageParams::text(
                "`.play <sc|yt (default)> <index (default is 1)> <query>`".to_owned(),
            ),
        )
    } else {
        Answer::Reply("Play only works in guild channels".to_owned())
    }
}

/// Where the bot is to go: the voice channel that it joins, and the channel of the guild that
/// the command was given in.
#[derive(Debug, Clone, Copy, PartialEq, Eq, Structural)]
pub struct JoinTarget {
    pub voice_channel: u64,
    pub text_channel: u64,
}

/// What is known when the bot is to join a channel.
#[derive(Debug, Clone, Copy, PartialEq, Eq, Structural)]
pub struct VoiceContext {
    pub voice_manager: bool,
    pub in_guild: bool,
    /// The voice channel that the user is in.
    pub voice_channel: Option<u64>,
    /// The channel that the command was given in, if it is one of a guild.
    pub text_channel: Option<u64>,
}

/// What keeps the bot from joining a channel.
pub open spec fn join_lacks(context: VoiceContext) -> Option<Missing> {
    if !context.voice_manager {
        Some(Missing::VoiceManager)
    } else if !context.in_guild {
        Some(Missing::Guild)
    } else if context.voice_channel is None {
        Some(Missing::VoiceChannel)
    } else {
        None
    }
}

/// Where the bot goes when nothing keeps it from that: nowhere, if the command was not given
/// in a channel of a guild.
pub open spec fn join_goal(context: VoiceContext) -> Option<JoinTarget> {
    match context.text_channel {
        Some(text_channel) => Some(
            JoinTarget { voice_channel: context.voice_channel->0, text_channel },
        ),
        None => None,
    }
}

/// Decides where the bot goes.
pub fn join_target(context: VoiceContext) -> (r: Result<Option<JoinTarget>, StringError>)
    ensures
        match r {
            Ok(goal) => join_lacks(context) is None && goal == join_goal(context),
            Err(e) => join_lacks(context) matches Some(what) && e.0@ == missing_text(what),
        },
{
    if !context.voice_manager {
        return Err(missing(Missing::VoiceManager));
    }
    if !context.in_guild {
        return Err(missing(Missing::Guild));
    }
    match context.voice_channel {
        Some(voice_channel) => match context.text_channel {
            Some(text_channel) => Ok(Some(JoinTarget { voice_channel, text_channel })),
            None => Ok(None),
        },
        None => Err(missing(Missing::VoiceChannel)),
    }
}

/// What follows the attempt to join a channel: the channel that the queue notes, or an error.
pub fn join_outcome(target: JoinTarget, joined: bool) -> (r: Result<u64, StringError>)
    ensures
        match r {
            Ok(channel) => joined && channel == target.text_channel,
            Err(e) => !joined && e.0@ == "Failed to join "@ + decimal(target.voice_channel as nat),
        },
{
    if joined {
        Ok(target.text_channel)
    } else {
        let mut text = "Failed to join ".to_owned();
        push_decimal(&mut text, target.voice_channel);
        Err(StringError(text))
    }
}

/// What keeps a track from being added. Everything that a search may need has to be there,
/// also where the track is given by its address; a channel matters only where the bot is in
/// none.
pub open spec fn enqueue_lacks(
    means: SearchMeans,
    connected: bool,
    context: VoiceContext,
) -> Option<Missing> {
    if !means.soundcloud_key {
        Some(Missing::SoundCloudKey)
    } else if !means.youtube_key {
        Some(Missing::YouTubeKey)
    } else if !means.client {
        Some(Missing::SearchClient)
    } else if connected {
        None
    } else {
        join_lacks(context)
    }
}

/// Checks that all is there that the command needs, and decides where the bot goes first.
pub fn prepare(means: SearchMeans, connected: bool, context: VoiceContext) -> (r: Result<
    Option<JoinTarget>,
    StringError,
>)
    ensures
        match r {
            Ok(goal) => enqueue_lacks(means, connected, context) is None && goal == if connected {
                None
            } else {
                join_goal(context)
            },
            Err(e) => enqueue_lacks(means, connected, context) matches Some(what) && e.0@
                == missing_text(what),
        },
{
    if !means.soundcloud_key {
        return Err(missing(Missing::SoundCloudKey));
    }
    if !means.youtube_key {
        return Err(missing(Missing::YouTubeKey));
    }
    if !means.client {
        return Err(missing(Missing::SearchClient));
    }
    if connected {
        Ok(None)
    } else {
        join_target(context)
    }
}

/// What the user wants to hear.
#[derive(Debug)]
pub enum Request {
    /// The track at an address.
    Track(TrackUrl),
    /// A result of a search, by its number from one.
    Search { site: Site, index: usize, query: String },
}

/// The number that the first argument writes.
pub open spec fn written_index(left: Seq<Argument>) -> Option<usize> {
    if left.len() == 0 {
        None
    } else {
        match written_number(left[0].text@) {
            Some(v) if v <= usize::MAX => Some(v as usize),
            _ => None,
        }
    }
}

/// The number of the result that arguments ask for: the one that the first of them writes,
/// otherwise one.
pub open spec fn asked_index(left: Seq<Argument>) -> usize {
    match written_index(left) {
        Some(index) => index,
        None => 1,
    }
}

/// The arguments behind the number of a result.
pub open spec fn after_index(left: Seq<Argument>) -> Seq<Argument> {
    if written_index(left) is Some {
        left.drop_first()
    } else {
        left
    }
}

/// Whether the first argument is an address.
pub open spec fn names_track(left: Seq<Argument>) -> bool {
    left.len() > 0 && url_reading(left[0].text@) is Ok
}

/// Reads what is to be searched for: a site, the number of a result, and the words that are
/// left. Site and number may be missing.
pub fn read_query(args: &mut Arguments) -> (r: (Site, usize, String))
    ensures
        r.0 == asked_site(old(args)@),
        r.1 == asked_index(after_site(old(args)@)),
        r.2@ == rest_text(after_index(after_site(old(args)@))),
        final(args)@ == after_index(after_site(old(args)@)),
        ascii_first(old(args)@),
{
    let site = read_site(args);
    let index: usize = match args.single_number() {
        Ok(index) => index,
        Err(_) => 1,
    };
    (site, index, args.rest().to_owned())
}

/// Reads what the user wants to hear: an address if the first argument is one, otherwise
/// something to search for.
pub fn read_request(args: &mut Arguments) -> (r: Request)
    ensures
        if names_track(old(args)@) {
            &&& r matches Request::Track(url)
            &&& is_url_reading(url_reading(old(args)@[0].text@), Ok(url))
            &&& final(args)@ == old(args)@
        } else {
            &&& r matches Request::Search { site, index, query }
            &&& site == asked_site(old(args)@)
            &&& index == asked_index(after_site(old(args)@))
            &&& query@ == rest_text(after_index(after_site(old(args)@)))
            &&& final(args)@ == after_index(after_site(old(args)@))
            &&& ascii_first(old(args)@)
        },
{
    let address = match args.current() {
        Some(text) => parse_url(text).ok(),
        None => None,
    };
    match address {
        Some(url) => Request::Track(url),
        None => {
            let (site, index, query) = read_query(args);
            Request::Search { site, index, query }
        },
    }
}

/// The position of the result that a number picks: numbers count from one, and a number that
/// stands for none of the results picks the first.
pub open spec fn picked(index: usize, count: nat) -> int {
    if 1 <= index <= count {
        index - 1
    } else {
        0
    }
}

/// The position of the result that a number picks.
pub fn pick(index: usize, count: usize) -> (r: usize)
    requires
        count > 0,
    ensures
        r == picked(index, count as nat),
        r < count,
{
    if 1 <= index && index <= count {
        index - 1
    } else {
        0
    }
}

/// What follows a search.
#[derive(Debug)]
pub enum Found {
    /// Nothing was found; this is the answer.
    Answer(Answer),
    /// This track is to be added.
    Track(TrackUrl),
}

/// What is said when the address of a result cannot be read.
pub open spec fn bad_result_text(position: nat, cause: Seq<char>) -> Seq<char> {
    "Failed to parse URL for search result "@ + decimal(position) + ": "@ + cause
}

/// Turns the address of the result at a position, as far as it could be read, into what
/// follows.
pub fn found_track(position: usize, address: Result<TrackUrl, String>) -> (r: Result<
    Found,
    StringError,
>)
    ensures
        match address {
            Ok(url) => r == Ok::<Found, StringError>(Found::Track(url)),
            Err(cause) => r matches Err(e) && e.0@ == bad_result_text(position as nat, cause@),
        },
{
    match address {
        Ok(url) => Ok(Found::Track(url)),
        Err(cause) => {
            let mut text = "Failed to parse URL for search result ".to_owned();
            push_decimal(&mut text, position as u64);
            text.append(": ");
            text.append(cause.as_str());
            Err(StringError(text))
        },
    }
}

/// Picks the track that is to be added from the results of a search.
pub fn pick_track(results: Result<Vec<SearchResult>, String>, index: usize) -> (r: Result<
    Found,
    StringError,
>)
    ensures
        match results {
            Err(cause) => r matches Err(e) && e.0@ == work_text(Work::Search) + cause@,
            Ok(list) => if list@.len() == 0 {
                r matches Ok(Found::Answer(answer)) && replies(answer, "No search results found"@)
            } else {
                let position = picked(index, list@.len());
                match url_reading(list@[position].url@) {
                    Ok(reading) => r matches Ok(Found::Track(url)) && is_url_reading(
                        url_reading(list@[position].url@),
                        Ok(url),
                    ),
                    Err(cause) => r matches Err(e) && e.0@ == bad_result_text(
                        position as nat,
                        cause,
                    ),
                }
            },
        },
{
    match results {
        Err(cause) => Err(failed(Work::Search, cause.as_str())),
        Ok(list) => {
            if list.len() == 0 {
                return Ok(Found::Answer(Answer::Reply("No search results found".to_owned())));
            }
            let position = pick(index, list.len());
            found_track(position, parse_url(list[position].url.as_str()))
        },
    }
}

/// How far the command has come.
#[derive(Debug, Clone, Copy, PartialEq, Eq, Structural)]
pub enum Stage {
    Starting,
    Helping,
    Preparing,
    Joining(JoinTarget),
    Connecting,
    /// Waiting for results, of which the one with the given number is wanted.
    Searching(usize),
    Done,
}

/// What has happened.
#[derive(Debug)]
pub enum Event {
    /// The command was given, in a guild or not.
    Started { in_guild: bool },
    /// It is known whether the command was given in a channel of a guild.
    ChannelKnown { in_guild_channel: bool },
    /// It is known what there is to work with.
    ContextKnown { means: SearchMeans, connected: bool, voice: VoiceContext },
    /// The bot has tried to join a channel.
    Joined(bool),
    /// The queue has noted the channel.
    Connected,
    /// The search has ended.
    Searched(Result<Vec<SearchResult>, String>),
}

/// What is to be done next.
#[derive(Debug)]
pub enum Action {
    /// Find out whether the command was given in a channel of a guild.
    AskChannel,
    /// Find out what there is to work with.
    AskContext,
    Join(JoinTarget),
    /// Let the queue note the channel.
    Connect(u64),
    Search { site: Site, query: String },
    /// Add the track; the command is over.
    Add(TrackUrl),
    /// Give the answer; the command is over.
    Answer(Answer),
}

/// The command at work: the arguments that are left, and how far it has come.
#[derive(Debug)]
pub struct Enqueue {
    args: Arguments,
    stage: Stage,
}

/// The contents of a command at work.
pub struct EnqueueModel {
    pub left: Seq<Argument>,
    pub stage: Stage,
}

impl View for Enqueue {
    type V = EnqueueModel;

    closed spec fn view(&self) -> EnqueueModel {
        EnqueueModel { left: self.args@, stage: self.stage }
    }
}

/// Whether an event can happen at a stage.
pub open spec fn fits(stage: Stage, event: Event) -> bool {
    match stage {
        Stage::Starting => event is Started,
        Stage::Helping => event is ChannelKnown,
        Stage::Preparing => event is ContextKnown,
        Stage::Joining(_) => event is Joined,
        Stage::Connecting => event is Connected,
        Stage::Searching(_) => event is Searched,
        Stage::Done => false,
    }
}

/// Whether reading the request from the arguments that are left leads to `after` and to the
/// given action: a track that is named is added, anything else is searched for.
pub open spec fn is_request_step(
    left: Seq<Argument>,
    after: EnqueueModel,
    r: Result<Action, StringError>,
) -> bool {
    if names_track(left) {
        &&& after == EnqueueModel { left, stage: Stage::Done }
        &&& r matches Ok(Action::Add(url))
        &&& is_url_reading(url_reading(left[0].text@), Ok(url))
    } else {
        &&& after == EnqueueModel {
            left: after_index(after_site(left)),
            stage: Stage::Searching(asked_index(after_site(left))),
        }
        &&& r matches Ok(Action::Search { site, query })
        &&& site == asked_site(left)
        &&& query@ == rest_text(after_index(after_site(left)))
        &&& ascii_first(left)
    }
}

/// Whether the command has failed for lack of something.
pub open spec fn lacks(
    before: EnqueueModel,
    what: Missing,
    after: EnqueueModel,
    r: Result<Action, StringError>,
) -> bool {
    &&& after == EnqueueModel { stage: Stage::Done, ..before }
    &&& r matches Err(e)
    &&& e.0@ == missing_text(what)
}

/// Whether `event` turns the command from `before` into `after`, with the given action or
/// error. After an error the command is over.
pub open spec fn is_step(
    before: EnqueueModel,
    event: Event,
    after: EnqueueModel,
    r: Result<Action, StringError>,
) -> bool {
    match event {
        Event::Started { in_guild } => if !in_guild {
            lacks(before, Missing::Guild, after, r)
        } else {
            &&& ascii_first(before.left)
            &&& if before.left.len() > 0 && help_flag(lowercase(before.left[0].text@)) {
                &&& after == EnqueueModel { stage: Stage::Helping, ..before }
                &&& r matches Ok(Action::AskChannel)
            } else {
                &&& after == EnqueueModel { stage: Stage::Preparing, ..before }
                &&& r matches Ok(Action::AskContext)
            }
        },
        Event::ChannelKnown { in_guild_channel } => {
            &&& after == EnqueueModel { stage: Stage::Done, ..before }
            &&& r matches Ok(Action::Answer(answer))
            &&& if in_guild_channel {
                sends_text(answer, "`.play <sc|yt (default)> <index (default is 1)> <query>`"@)
            } else {
                replies(answer, "Play only works in guild channels"@)
            }
        },
        Event::ContextKnown { means, connected, voice } => match enqueue_lacks(
            means,
            connected,
            voice,
        ) {
            Some(what) => lacks(before, what, after, r),
            None => match join_goal(voice) {
                Some(target) if !connected => {
                    &&& after == EnqueueModel { stage: Stage::Joining(target), ..before }
                    &&& r == Ok::<Action, StringError>(Action::Join(target))
                },
                _ => is_request_step(before.left, after, r),
            },
        },
        Event::Joined(joined) => if joined {
            &&& after == EnqueueModel { stage: Stage::Connecting, ..before }
            &&& r == Ok::<Action, StringError>(
                Action::Connect(before.stage->Joining_0.text_channel),
            )
        } else {
            &&& after == EnqueueModel { stage: Stage::Done, ..before }
            &&& r matches Err(e)
            &&& e.0@ == "Failed to join "@ + decimal(
                before.stage->Joining_0.voice_channel as nat,
            )
        },
        Event::Connected => is_request_step(before.left, after, r),
        Event::Searched(results) => {
            &&& after == EnqueueModel { stage: Stage::Done, ..before }
            &&& match results {
                Err(cause) => r matches Err(e) && e.0@ == work_text(Work::Search) + cause@,
                Ok(list) => if list@.len() == 0 {
                    r matches Ok(Action::Answer(answer)) && replies(
                        answer,
                        "No search results found"@,
                    )
                } else {
                    let position = picked(before.stage->Searching_0, list@.len());
                    match url_reading(list@[position].url@) {
                        Ok(_) => r matches Ok(Action::Add(url)) && is_url_reading(
                            url_reading(list@[position].url@),
                            Ok(url),
                        ),
                        Err(cause) => r matches Err(e) && e.0@ == bad_result_text(
                            position as nat,
                            cause,
                        ),
                    }
                },
            }
        },
    }
}

impl Enqueue {
    /// The command with its arguments, before anything has happened.
    pub fn new(args: Arguments) -> (r: Self)
        ensures
            r@ == (EnqueueModel { left: args@, stage: Stage::Starting }),
    {
        Enqueue { args, stage: Stage::Starting }
    }

    /// How far the command has come.
    pub fn stage(&self) -> (r: Stage)
        ensures
            r == self@.stage,
    {
        self.stage
    }

    fn request(&mut self) -> (r: Result<Action, StringError>)
        ensures
            is_request_step(old(self)@.left, final(self)@, r),
    {
        match read_request(&mut self.args) {
            Request::Track(url) => {
                self.stage = Stage::Done;
                Ok(Action::Add(url))
            },
            Request::Search { site, index, query } => {
                self.stage = Stage::Searching(index);
                Ok(Action::Search { site, query })
            },
        }
    }

    /// Goes on with the command when `event` happens.
    pub fn step(&mut self, event: Event) -> (r: Result<Action, StringError>)
        requires
            fits(old(self)@.stage, event),
        ensures
            is_step(old(self)@, event, final(self)@, r),
    {
        let stage = self.stage;
        self.stage = Stage::Done;
        match event {
            Event::Started { in_guild } => match begin(in_guild, &self.args) {
                Ok(Opening::Help) => {
                    self.stage = Stage::Helping;
                    Ok(Action::AskChannel)
                },
                Ok(Opening::Play) => {
                    self.stage = Stage::Preparing;
                    Ok(Action::AskContext)
                },
                Err(e) => Err(e),
            },
            Event::ChannelKnown { in_guild_channel } => Ok(
                Action::Answer(help(in_guild_channel)),
            ),
            Event::ContextKnown { means, connected, voice } => match prepare(
                means,
                connected,
                voice,
            ) {
                Ok(Some(target)) => {
                    self.stage = Stage::Joining(target);
                    Ok(Action::Join(target))
                },
                Ok(None) => self.request(),
                Err(e) => Err(e),
            },
            Event::Joined(joined) => match stage {
                Stage::Joining(target) => match join_outcome(target, joined) {
                    Ok(channel) => {
                        self.stage = Stage::Connecting;
                        Ok(Action::Connect(channel))
                    },
                    Err(e) => Err(e),
                },
                _ => Ok(Action::Answer(Answer::Nothing)),
            },
            Event::Connected => self.request(),
            Event::Searched(results) => match stage {
                Stage::Searching(index) => match pick_track(results, index) {
                    Ok(Found::Answer(answer)) => Ok(Action::Answer(answer)),
                    Ok(Found::Track(url)) => Ok(Action::Add(url)),
                    Err(e) => Err(e),
                },
                _ => Ok(Action::Answer(Answer::Nothing)),
            },
        }
    }
}

/// How many steps a command at a stage can still take.
pub open spec fn steps_left(stage: Stage) -> nat {
    match stage {
        Stage::Starting => 5,
        Stage::Preparing => 4,
        Stage::Joining(_) => 3,
        Stage::Connecting => 2,
        Stage::Searching(_) => 1,
        Stage::Helping => 1,
        Stage::Done => 0,
    }
}

/// The command comes to an end: every step brings it closer to that.
pub proof fn command_ends(
    before: EnqueueModel,
    event: Event,
    after: EnqueueModel,
    r: Result<Action, StringError>,
)
    requires
        fits(before.stage, event),
        is_step(before, event, after, r),
    ensures
        steps_left(after.stage) < steps_left(before.stage),
        after.stage is Done <==> r is Err || r matches Ok(Action::Add(_)) || r matches Ok(
            Action::Answer(_),
        ),
{
}

/// The command goes on only if all that a search may need is there, and if the bot is in a
/// channel already or nothing keeps it from joining one.
pub proof fn command_goes_on_prepared(
    before: EnqueueModel,
    means: SearchMeans,
    connected: bool,
    voice: VoiceContext,
    after: EnqueueModel,
    r: Result<Action, StringError>,
)
    requires
        before.stage is Preparing,
        is_step(before, Event::ContextKnown { means, connected, voice }, after, r),
        r is Ok,
    ensures
        means.client && means.youtube_key && means.soundcloud_key,
        connected || voice.voice_manager && voice.in_guild && voice.voice_channel is Some,
{
}

/// A number that a listing of results shows picks the result that it stands before.
pub proof fn shown_number_picks_its_result(results: Seq<SearchResult>, position: int)
    requires
        0 <= position < results.len(),
        results.len() <= usize::MAX,
    ensures
        written_number(decimal((position + 1) as nat)) == Some((position + 1) as nat),
        picked((position + 1) as usize, results.len()) == position,
{
    decimal_reads_back((position + 1) as nat);
}

/// Whatever the number, a search that finds anything picks one of its results.
pub proof fn every_number_picks_a_result(index: usize, count: nat)
    requires
        count > 0,
    ensures
        0 <= picked(index, count) < count,
        index == 0 || index > count ==> picked(index, count) == 0,
{
}

/// Site and number may be left out: words that begin with neither are searched for on YouTube
/// as a whole, and the first result is taken.
pub proof fn request_defaults(left: Seq<Argument>)
    requires
        named_site(left) is None,
        written_index(left) is None,
    ensures
        asked_site(left) == Site::YouTube,
        asked_index(after_site(left)) == 1,
        after_index(after_site(left)) == left,
        forall|count: nat| count > 0 ==> #[trigger] picked(1, count) == 0,
{
}

} // verus!
