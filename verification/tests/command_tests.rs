use std::collections::HashMap;

use brobot::args::{Argument, Arguments};
use brobot::commands::{
    failed, get_queue_for_guild, leave, list_queue, missing, read_remove_index, require_guild,
    saved_volume, search, search_answer, volume, wipe_answer, wipe_audio_cache, Answer, CacheEntry, Missing,
    Place, SearchMeans, SearchPlan, Work,
};
use brobot::enqueue::{
    begin, found_track, help, is_help_flag, join_outcome, join_target, pick,
    pick_track, prepare, read_query, read_request, Action, Enqueue, Event, Found, JoinTarget,
    Opening, Request, Stage, VoiceContext,
};
use brobot::queue::Queue;
use brobot::search::{SearchResult, Site};

/// Arguments that blanks part, without any quoting.
fn arguments(message: &str) -> Arguments {
    let mut items = Vec::new();
    let mut rest = message.trim_start();
    while !rest.is_empty() {
        let text = rest.split(' ').next().unwrap();
        items.push(Argument { text: text.to_string(), rest: rest.to_string() });
        rest = rest[text.len()..].trim_start();
    }
    Arguments::new(items)
}

fn sent(answer: Answer) -> String {
    match answer {
        Answer::Send(params) => {
            assert!(params.title.is_none() && params.color.is_none() && params.fields.is_none());
            params.message.unwrap()
        }
        other => panic!("{:?}", other),
    }
}

fn replied(answer: Answer) -> String {
    match answer {
        Answer::Reply(text) => text,
        other => panic!("{:?}", other),
    }
}

const ALL: SearchMeans = SearchMeans { client: true, youtube_key: true, soundcloud_key: true };

const ALONE: VoiceContext = VoiceContext {
    voice_manager: true,
    in_guild: true,
    voice_channel: Some(11),
    text_channel: Some(22),
};

fn result(url: &str) -> SearchResult {
    SearchResult { url: url.to_string(), title: String::from("t"), author: String::from("a") }
}

#[test]
fn missing_things() {
    let texts = [
        (Missing::Guild, "Only Guilds supported"),
        (Missing::GuildChannel, "Not in a guild channel"),
        (Missing::VoiceManager, "Could not find VoiceManager"),
        (Missing::VoiceChannel, "You are not in a voice channel"),
        (Missing::SearchClient, "Could not get Search HTTP Client"),
        (Missing::YouTubeKey, "Could not find Youtube API Key"),
        (Missing::SoundCloudKey, "Could not find SoundCloud API Key"),
        (Missing::QueueMap, "Could not find Queue map in Context"),
        (Missing::LeftChannel, "Failed to leave channel"),
    ];
    for (what, text) in texts {
        assert_eq!(missing(what).0, text);
    }
    assert!(require_guild(true).is_ok());
    assert_eq!(require_guild(false).unwrap_err().0, "Only Guilds supported");
}

#[test]
fn failed_work() {
    assert_eq!(failed(Work::SendMessage, "x").0, "Failed to send message: x");
    assert_eq!(failed(Work::Search, "x").0, "Failed to search: x");
    assert_eq!(failed(Work::ReadCache, "x").0, "Failed to read track cache: x");
    assert_eq!(failed(Work::RemoveCache, "x").0, "Failed to remove cached track dir: x");
    assert_eq!(failed(Work::CreateCache, "x").0, "Failed to create cached track dir: x");
}

#[test]
fn wiping_the_cache() {
    let entries = || {
        Ok(vec![
            CacheEntry::File(Some(100)),
            CacheEntry::File(None),
            CacheEntry::Unreadable,
            CacheEntry::File(Some(23)),
        ])
    };
    let wipe = wipe_audio_cache(entries(), &arguments("")).unwrap();
    assert_eq!((wipe.total_bytes, wipe.items, wipe.dry_run), (123, 3, false));
    let dry = wipe_audio_cache(entries(), &arguments("--dry")).unwrap();
    assert!(dry.dry_run);
    assert_eq!((dry.total_bytes, dry.items), (wipe.total_bytes, wipe.items));
    assert_eq!(sent(wipe_answer(&dry, "123 B", true)), sent(wipe_answer(&wipe, "123 B", true)));
    assert!(wipe_audio_cache(Err(String::from("gone")), &arguments("--dry")).is_err());
    assert!(!wipe_audio_cache(entries(), &arguments("x --dry")).unwrap().dry_run);
    assert!(!wipe_audio_cache(entries(), &arguments("--DRY")).unwrap().dry_run);
    let e = wipe_audio_cache(Err(String::from("gone")), &arguments("")).unwrap_err();
    assert_eq!(e.0, "Failed to read track cache: gone");
    assert_eq!(
        sent(wipe_answer(&wipe, "123 B", true)),
        "Wiped **3** files, totaling **123 B**"
    );
    assert_eq!(
        replied(wipe_answer(&wipe, "123 B", false)),
        "Can only be used in Guild channels"
    );
    let empty = wipe_audio_cache(Ok(vec![]), &arguments("")).unwrap();
    assert_eq!((empty.total_bytes, empty.items), (0, 0));
}

#[test]
fn volumes_are_told() {
    assert_eq!(sent(volume("100", Some("50"), true)), "Volume changed from **100** to **50**");
    assert_eq!(sent(volume("100", None, true)), "Volume is currently **100**");
    assert_eq!(replied(volume("100", None, false)), "Can only be used in Guild channels");
}

#[test]
fn searches_are_planned() {
    assert!(matches!(
        search(Place::Unknown, &mut arguments("a"), ALL),
        Ok(SearchPlan::Answer(Answer::Nothing))
    ));
    match search(Place::OtherChannel, &mut arguments("a"), ALL) {
        Ok(SearchPlan::Answer(answer)) => {
            assert_eq!(replied(answer), "Needs to be executed in a guild channel")
        }
        other => panic!("{:?}", other),
    }
    match search(Place::GuildChannel, &mut arguments(""), ALL) {
        Ok(SearchPlan::Answer(answer)) => {
            assert_eq!(sent(answer), "usage: .s|.search <{youtube,yt}|{soundcloud,sc}> <query>")
        }
        other => panic!("{:?}", other),
    }
    let cases = [
        ("two words", Site::YouTube, "two words"),
        ("YT two words", Site::YouTube, "two words"),
        ("SoundCloud two words", Site::SoundCloud, "two words"),
        ("sc", Site::SoundCloud, ""),
        ("words sc", Site::YouTube, "words sc"),
    ];
    for (message, wanted, words) in cases {
        match search(Place::GuildChannel, &mut arguments(message), ALL) {
            Ok(SearchPlan::Query { site, query }) => {
                assert_eq!(site, wanted);
                assert_eq!(query, words);
            }
            other => panic!("{:?}", other),
        }
    }
}

#[test]
fn searches_need_their_means() {
    let run = |message: &str, means: SearchMeans| {
        search(Place::GuildChannel, &mut arguments(message), means).map(|_| ()).map_err(|e| e.0)
    };
    let no_client = SearchMeans { client: false, ..ALL };
    let no_youtube = SearchMeans { youtube_key: false, ..ALL };
    let no_soundcloud = SearchMeans { soundcloud_key: false, ..ALL };
    assert_eq!(run("a", no_client), Err(String::from("Could not get Search HTTP Client")));
    assert_eq!(run("a", no_youtube), Err(String::from("Could not find Youtube API Key")));
    assert_eq!(run("a", no_soundcloud), Ok(()));
    assert_eq!(run("sc a", no_soundcloud), Err(String::from("Could not find SoundCloud API Key")));
    assert_eq!(run("sc a", no_youtube), Ok(()));
}

#[test]
fn searches_are_answered() {
    let params = search_answer(Site::SoundCloud, Ok(vec![result("u")])).unwrap();
    assert_eq!(params.title.as_deref(), Some("**SoundCloud** Results"));
    assert_eq!(params.message.as_deref(), Some("**1**: [t](u) by **a**\n"));
    let params = search_answer(Site::YouTube, Ok(vec![])).unwrap();
    assert_eq!(params.title.as_deref(), Some("**YouTube** Results"));
    assert_eq!(params.message.as_deref(), Some("No results"));
    let e = search_answer(Site::YouTube, Err(String::from("down"))).unwrap_err();
    assert_eq!(e.0, "Failed to search: down");
}

#[test]
fn queues_are_listed_in_guild_channels() {
    let queue = Queue::new(1, None);
    let params = list_queue(&queue, true).unwrap();
    assert_eq!(params.message, Some(queue.to_string()));
    assert_eq!(list_queue(&queue, false).unwrap_err().0, "Not in a guild channel");
}

#[test]
fn numbers_of_tracks_to_remove() {
    let mut args = arguments("3 4");
    assert_eq!(read_remove_index(&mut args).unwrap(), 3);
    assert_eq!(args.current(), Some("4"));
    assert_eq!(
        read_remove_index(&mut arguments("")).unwrap_err().0,
        "Invalid index provided (ArgError(\"end of string\")). Usage: .remove <idx>"
    );
    assert_eq!(
        read_remove_index(&mut arguments("x")).unwrap_err().0,
        "Invalid index provided (ArgError(\"invalid digit found in string\")). Usage: .remove <idx>"
    );
}

#[test]
fn leaving() {
    assert!(leave(true, true, true).is_ok());
    assert_eq!(leave(false, false, false).unwrap_err().0, "Only Guilds supported");
    assert_eq!(leave(true, false, false).unwrap_err().0, "Could not find VoiceManager");
    assert_eq!(leave(true, true, false).unwrap_err().0, "Failed to leave channel");
}

#[test]
fn saved_volumes() {
    let mut map = HashMap::new();
    assert_eq!(saved_volume(&map, 1), None);
    map.insert(1, 0.25f32);
    map.insert(2, 0.5f32);
    assert_eq!(saved_volume(&map, 1), Some(0.25));
    assert_eq!(saved_volume(&map, 2), Some(0.5));
    assert_eq!(saved_volume(&map, 3), None);
}

#[test]
fn guilds_keep_their_queue() {
    let mut queues: HashMap<u64, &str> = HashMap::new();
    assert_eq!(*get_queue_for_guild(&mut queues, 1, "first"), "first");
    assert_eq!(*get_queue_for_guild(&mut queues, 2, "other"), "other");
    assert_eq!(*get_queue_for_guild(&mut queues, 1, "again"), "first");
    assert_eq!(queues.len(), 2);
}

#[test]
fn help_comes_first() {
    assert!(is_help_flag("--help") && is_help_flag("-h"));
    assert!(!is_help_flag("-H") && !is_help_flag("help"));
    assert_eq!(begin(true, &arguments("-H")).unwrap(), Opening::Help);
    assert_eq!(begin(true, &arguments("--HELP me")).unwrap(), Opening::Help);
    assert_eq!(begin(true, &arguments("me --help")).unwrap(), Opening::Play);
    assert_eq!(begin(true, &arguments("")).unwrap(), Opening::Play);
    assert_eq!(begin(false, &arguments("-h")).unwrap_err().0, "Only Guilds supported");
    assert_eq!(sent(help(true)), "`.play <sc|yt (default)> <index (default is 1)> <query>`");
    assert_eq!(replied(help(false)), "Play only works in guild channels");
}

#[test]
fn where_the_bot_goes() {
    let goal = JoinTarget { voice_channel: 11, text_channel: 22 };
    assert_eq!(join_target(ALONE).unwrap(), Some(goal));
    assert_eq!(join_target(VoiceContext { text_channel: None, ..ALONE }).unwrap(), None);
    let lacks = |context: VoiceContext| join_target(context).unwrap_err().0;
    assert_eq!(
        lacks(VoiceContext { voice_manager: false, in_guild: false, ..ALONE }),
        "Could not find VoiceManager"
    );
    assert_eq!(
        lacks(VoiceContext { in_guild: false, voice_channel: None, ..ALONE }),
        "Only Guilds supported"
    );
    assert_eq!(
        lacks(VoiceContext { voice_channel: None, text_channel: None, ..ALONE }),
        "You are not in a voice channel"
    );
    assert_eq!(join_outcome(goal, true).unwrap(), 22);
    assert_eq!(join_outcome(goal, false).unwrap_err().0, "Failed to join 11");
}

#[test]
fn what_adding_a_track_needs() {
    let none = SearchMeans { client: false, youtube_key: false, soundcloud_key: false };
    assert_eq!(prepare(none, false, ALONE).unwrap_err().0, "Could not find SoundCloud API Key");
    let some = SearchMeans { soundcloud_key: true, ..none };
    assert_eq!(prepare(some, false, ALONE).unwrap_err().0, "Could not find Youtube API Key");
    let more = SearchMeans { youtube_key: true, ..some };
    assert_eq!(prepare(more, true, ALONE).unwrap_err().0, "Could not get Search HTTP Client");
    let nowhere = VoiceContext { voice_channel: None, ..ALONE };
    assert_eq!(prepare(ALL, true, nowhere).unwrap(), None);
    assert_eq!(
        prepare(ALL, false, nowhere).unwrap_err().0,
        "You are not in a voice channel"
    );
    assert_eq!(
        prepare(ALL, false, ALONE).unwrap(),
        Some(JoinTarget { voice_channel: 11, text_channel: 22 })
    );
}

#[test]
fn requests_by_address() {
    match read_request(&mut arguments("HTTPS://YouTu.be/x?a#b rest")) {
        Request::Track(url) => {
            assert_eq!(url.text, "https://youtu.be/x?a#b");
            assert_eq!(url.host.as_deref(), Some("youtu.be"));
            let parsed = url::Url::parse("https://youtu.be/x?a#b").unwrap();
            assert_eq!(url.debug, format!("{:?}", parsed));
        }
        other => panic!("{:?}", other),
    }
    match read_request(&mut arguments("mailto:a@b")) {
        Request::Track(url) => assert_eq!(url.host, None),
        other => panic!("{:?}", other),
    }
}

#[test]
fn requests_by_search() {
    let cases = [
        ("some words", Site::YouTube, 1, "some words"),
        ("2 some words", Site::YouTube, 2, "some words"),
        ("Sc 3 some words", Site::SoundCloud, 3, "some words"),
        ("sc some 3 words", Site::SoundCloud, 1, "some 3 words"),
        ("3 sc words", Site::YouTube, 3, "sc words"),
        ("yt 0", Site::YouTube, 0, ""),
        ("", Site::YouTube, 1, ""),
    ];
    for (message, wanted, number, words) in cases {
        match read_request(&mut arguments(message)) {
            Request::Search { site, index, query } => {
                assert_eq!((site, index, query.as_str()), (wanted, number, words));
            }
            other => panic!("{:?}", other),
        }
        let (site, index, query) = read_query(&mut arguments(message));
        assert_eq!((site, index, query.as_str()), (wanted, number, words));
    }
}

#[test]
fn picking_results() {
    assert_eq!(pick(1, 3), 0);
    assert_eq!(pick(3, 3), 2);
    assert_eq!(pick(5, 3), 0);
    assert_eq!(pick(4, 3), 0);
    assert_eq!(pick(0, 3), 0);
    assert_eq!(pick(usize::MAX, 3), 0);
    for position in 0..3 {
        assert_eq!(pick(position + 1, 3), position);
    }
}

#[test]
fn tracks_from_results() {
    let results = || Ok(vec![result("https://youtu.be/a"), result("not an address")]);
    match pick_track(results(), 1).unwrap() {
        Found::Track(url) => assert_eq!(url.text, "https://youtu.be/a"),
        other => panic!("{:?}", other),
    }
    for number in [0, 3, 9] {
        match pick_track(results(), number).unwrap() {
            Found::Track(url) => assert_eq!(url.text, "https://youtu.be/a"),
            other => panic!("{:?}", other),
        }
    }
    assert_eq!(
        pick_track(results(), 2).unwrap_err().0,
        "Failed to parse URL for search result 1: relative URL without a base"
    );
    match pick_track(Ok(vec![]), 0).unwrap() {
        Found::Answer(answer) => assert_eq!(replied(answer), "No search results found"),
        other => panic!("{:?}", other),
    }
    assert_eq!(
        pick_track(Err(String::from("down")), 1).unwrap_err().0,
        "Failed to search: down"
    );
    assert_eq!(
        found_track(4, Err(String::from("bad"))).unwrap_err().0,
        "Failed to parse URL for search result 4: bad"
    );
}

#[test]
fn a_command_that_searches_from_nowhere() {
    let mut command = Enqueue::new(arguments("sc 2 some words"));
    assert_eq!(command.stage(), Stage::Starting);
    assert!(matches!(command.step(Event::Started { in_guild: true }), Ok(Action::AskContext)));
    assert_eq!(command.stage(), Stage::Preparing);
    let target = JoinTarget { voice_channel: 11, text_channel: 22 };
    match command.step(Event::ContextKnown { means: ALL, connected: false, voice: ALONE }) {
        Ok(Action::Join(goal)) => assert_eq!(goal, target),
        other => panic!("{:?}", other),
    }
    assert_eq!(command.stage(), Stage::Joining(target));
    assert!(matches!(command.step(Event::Joined(true)), Ok(Action::Connect(22))));
    assert_eq!(command.stage(), Stage::Connecting);
    match command.step(Event::Connected) {
        Ok(Action::Search { site, query }) => {
            assert_eq!(site, Site::SoundCloud);
            assert_eq!(query, "some words");
        }
        other => panic!("{:?}", other),
    }
    assert_eq!(command.stage(), Stage::Searching(2));
    let results = Ok(vec![result("https://youtu.be/a"), result("https://youtu.be/b")]);
    match command.step(Event::Searched(results)) {
        Ok(Action::Add(url)) => assert_eq!(url.text, "https://youtu.be/b"),
        other => panic!("{:?}", other),
    }
    assert_eq!(command.stage(), Stage::Done);
}

#[test]
fn a_command_that_names_its_track() {
    let mut command = Enqueue::new(arguments("https://youtu.be/a"));
    assert!(command.step(Event::Started { in_guild: true }).is_ok());
    match command.step(Event::ContextKnown { means: ALL, connected: true, voice: ALONE }) {
        Ok(Action::Add(url)) => assert_eq!(url.text, "https://youtu.be/a"),
        other => panic!("{:?}", other),
    }
    assert_eq!(command.stage(), Stage::Done);
}

#[test]
fn a_command_that_asks_for_help() {
    let mut command = Enqueue::new(arguments("--Help"));
    assert!(matches!(command.step(Event::Started { in_guild: true }), Ok(Action::AskChannel)));
    assert_eq!(command.stage(), Stage::Helping);
    match command.step(Event::ChannelKnown { in_guild_channel: false }) {
        Ok(Action::Answer(answer)) => {
            assert_eq!(replied(answer), "Play only works in guild channels")
        }
        other => panic!("{:?}", other),
    }
    assert_eq!(command.stage(), Stage::Done);
}

#[test]
fn commands_that_fail_are_over() {
    let mut command = Enqueue::new(arguments("a"));
    let e = command.step(Event::Started { in_guild: false }).unwrap_err();
    assert_eq!(e.0, "Only Guilds supported");
    assert_eq!(command.stage(), Stage::Done);

    let mut command = Enqueue::new(arguments("a"));
    assert!(command.step(Event::Started { in_guild: true }).is_ok());
    let means = SearchMeans { youtube_key: false, ..ALL };
    let context = Event::ContextKnown { means, connected: true, voice: ALONE };
    assert_eq!(command.step(context).unwrap_err().0, "Could not find Youtube API Key");
    assert_eq!(command.stage(), Stage::Done);

    let mut command = Enqueue::new(arguments("a"));
    assert!(command.step(Event::Started { in_guild: true }).is_ok());
    let context = Event::ContextKnown { means: ALL, connected: false, voice: ALONE };
    assert!(command.step(context).is_ok());
    assert_eq!(command.step(Event::Joined(false)).unwrap_err().0, "Failed to join 11");
    assert_eq!(command.stage(), Stage::Done);
}

#[test]
fn a_command_outside_guild_channels_goes_on_without_joining() {
    let mut command = Enqueue::new(arguments("a"));
    assert!(command.step(Event::Started { in_guild: true }).is_ok());
    let voice = VoiceContext { text_channel: None, ..ALONE };
    let context = Event::ContextKnown { means: ALL, connected: false, voice };
    assert!(matches!(command.step(context), Ok(Action::Search { .. })));
    match command.step(Event::Searched(Ok(vec![]))) {
        Ok(Action::Answer(answer)) => assert_eq!(replied(answer), "No search results found"),
        other => panic!("{:?}", other),
    }
}
