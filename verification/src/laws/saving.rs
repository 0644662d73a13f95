//! Where tracks come from, where they are kept, and how they get there.

use std::collections::hash_map::DefaultHasher;
use vstd::prelude::*;
use vstd::std_specs::hash::DefaultHasherAdditionalSpecFns;
use vstd::string::*;
use vstd::utf8::*;

use crate::download::{download_step, texts, DownloadAction, DownloadEvent, DownloadStep};
use crate::queue::QueueWorkerEvent;
use crate::text::{ends_with, hexadecimal, lowercase, numeral_tells_numbers_apart};
use crate::track::{
    embed_request, hashed_writes, is_youtube_dl_capable_host, saved_path, text_hash, EmbedInfo,
    TrackSource, TrackState, TrackUrl, MUSIC_DIR,
};

verus! {

/// The name that a text gives to a file: its hash, written in hexadecimal.
pub open spec fn name_from(text: Seq<char>) -> Seq<char> {
    hexadecimal(DefaultHasher::spec_finish(hashed_writes(text)) as nat)
}

/// A track of which no thumbnail is known is named by its full address, whatever its site.
pub proof fn address_names_the_file(source: TrackSource, name: String)
    requires
        call_ensures(TrackSource::id, (&source,), name),
    ensures
        source matches TrackSource::Unknown(url) ==> name@ == name_from(url.text@),
        source matches TrackSource::YouTube { url, embed_info } ==> (embed_info matches Some(info)
            ==> info.thumbnail_url is None) ==> name@ == name_from(url.text@),
        source matches TrackSource::SoundCloud { url, embed_info } ==> (
        embed_info matches Some(info) ==> info.thumbnail_url is None) ==> name@ == name_from(
            url.text@,
        ),
{
}

/// A track of a known site of which a thumbnail is known is named by the full address of that,
/// and by nothing else that is known of it.
pub proof fn thumbnail_names_the_file(source: TrackSource, name: String)
    requires
        call_ensures(TrackSource::id, (&source,), name),
    ensures
        source matches TrackSource::YouTube { url: _, embed_info: Some(info) } ==> (
        info.thumbnail_url matches Some(thumbnail) ==> name@ == name_from(thumbnail@)),
        source matches TrackSource::SoundCloud { url: _, embed_info: Some(info) } ==> (
        info.thumbnail_url matches Some(thumbnail) ==> name@ == name_from(thumbnail@)),
{
}

/// The text that tells a track from others is its full address where no thumbnail is known of it:
/// tracks at different addresses are then told apart.
pub proof fn tracks_are_told_apart(a: TrackSource, b: TrackSource)
    ensures
        (a.embed() matches Some(info) ==> info.thumbnail_url is None) ==> a.key()
            == a.address().text@,
        a is Unknown && b is Unknown && a->Unknown_0.text@ != b->Unknown_0.text@ ==> a.key()
            != b.key(),
        a is Unknown ==> a.embed() is None && a.address() == a->Unknown_0,
        a is YouTube ==> a.embed() == a->YouTube_embed_info && a.address() == a->YouTube_url,
        a is SoundCloud ==> a.embed() == a->SoundCloud_embed_info && a.address()
            == a->SoundCloud_url,
{
}

/// A track is kept under its name in the directory of saved tracks.
pub proof fn track_is_kept_under_its_name(source: TrackSource, name: String, path: String)
    requires
        call_ensures(TrackSource::id, (&source,), name),
        call_ensures(saved_path, (&source,), path),
    ensures
        path@ == "saved_tracks/"@ + name@,
{
}

/// Two tracks share a file only if the texts that name them share their hash: the numeral of the
/// hash tells any two hashes apart.
pub proof fn different_hashes_different_files(
    a: TrackSource,
    b: TrackSource,
    path_a: String,
    path_b: String,
)
    requires
        call_ensures(saved_path, (&a,), path_a),
        call_ensures(saved_path, (&b,), path_b),
        path_a@ == path_b@,
    ensures
        text_hash(a.key()) == text_hash(b.key()),
{
    let n = MUSIC_DIR@.len() as int;
    assert(path_a@.skip(n) =~= hexadecimal(text_hash(a.key()) as nat));
    assert(path_b@.skip(n) =~= hexadecimal(text_hash(b.key()) as nat));
    numeral_tells_numbers_apart(text_hash(a.key()) as nat, text_hash(b.key()) as nat, 16);
}

/// Whether a host is one of YouTube.
pub open spec fn is_youtube_host(host: Seq<char>) -> bool {
    ||| host == "youtube"@
    ||| host == "youtube.com"@
    ||| host == "www.youtube.com"@
    ||| host == "youtu.be"@
    ||| host == "www.youtu.be"@
}

/// Whether a host is one of SoundCloud.
pub open spec fn is_soundcloud_host(host: Seq<char>) -> bool {
    ||| host == "soundcloud.com"@
    ||| host == "www.soundcloud.com"@
}

/// A source keeps the address that it was made from; its site is told by the host, and what is
/// said of the track is kept where the site is known.
pub proof fn source_keeps_its_address(
    url: TrackUrl,
    embed_info: Option<EmbedInfo>,
    source: TrackSource,
    text: String,
)
    requires
        url.host is Some,
        call_ensures(TrackSource::from_url, (url, embed_info), source),
        call_ensures(TrackSource::url, (&source,), text),
    ensures
        text@ == url.text@,
        is_youtube_host(url.host->0@) ==> source == (TrackSource::YouTube { url, embed_info }),
        is_soundcloud_host(url.host->0@) ==> source == (TrackSource::SoundCloud {
            url,
            embed_info,
        }),
        !is_youtube_host(url.host->0@) && !is_soundcloud_host(url.host->0@) ==> source
            == TrackSource::Unknown(url),
{
    reveal_strlit("youtube");
    reveal_strlit("youtube.com");
    reveal_strlit("www.youtube.com");
    reveal_strlit("youtu.be");
    reveal_strlit("www.youtu.be");
    reveal_strlit("soundcloud.com");
    reveal_strlit("www.soundcloud.com");
    assert("soundcloud.com"@.len() == 14 && "www.soundcloud.com"@.len() == 18);
}

/// The embed service is asked of a track, with its full address, exactly if its host is one of a
/// known site.
pub proof fn embed_service_is_asked_of_known_sites(url: TrackUrl, r: Option<String>)
    requires
        call_ensures(embed_request, (&url,), r),
    ensures
        r is Some <==> url.host is Some && (is_youtube_host(url.host->0@) || is_soundcloud_host(
            url.host->0@,
        )),
        r matches Some(request) ==> request@ == "https://noembed.com/embed?url="@ + url.text@,
{
}

/// Tracks can be downloaded from every host of a known site, `youtube` alone not being one that
/// an address has, and from every host that ends in `bandcamp.com`; from no other host.
pub proof fn hosts_are_capable(host: &str, r: bool)
    requires
        call_ensures(is_youtube_dl_capable_host, (host,), r),
    ensures
        ({
            let lower = lowercase(host@);
            r <==> lower != "youtube"@ && (is_youtube_host(lower) || is_soundcloud_host(lower))
                || ends_with(lower, "bandcamp.com"@)
        }),
{
    reveal_strlit("youtube");
    reveal_strlit("youtube.com");
    reveal_strlit("www.youtube.com");
    reveal_strlit("youtu.be");
    reveal_strlit("www.youtu.be");
    reveal_strlit("soundcloud.com");
    reveal_strlit("www.soundcloud.com");
    assert("youtube"@.len() == 7);
}

/// A track stays the same track in whatever state it is put, and tells its address in each of
/// them.
pub proof fn track_keeps_its_source(
    state: TrackState,
    text: String,
    ready: TrackState,
    failed: TrackState,
    reported: TrackState,
    source: TrackSource,
    url: String,
    info: (TrackSource, String),
)
    requires
        call_ensures(TrackState::ready, (&state, text), ready),
        call_ensures(TrackState::fail, (&state, text), failed),
        call_ensures(TrackState::fail_str, (&state, text), reported),
        call_ensures(TrackState::source, (&state,), source),
        call_ensures(TrackState::url, (&state,), url),
        call_ensures(TrackState::get_info, (&state,), info),
    ensures
        ready == (TrackState::Ready { source, path: text }),
        failed == (TrackState::Failed { source, error: text }),
        reported == (TrackState::SimpleFailed { source, error: text }),
        match state {
            TrackState::Queueed(s) => s == source,
            TrackState::Downloading(s) => s == source,
            TrackState::Ready { source: s, .. } => s == source,
            TrackState::Failed { source: s, .. } => s == source,
            TrackState::SimpleFailed { source: s, .. } => s == source,
        },
        match source {
            TrackSource::YouTube { url: u, .. } => url@ == u.text@,
            TrackSource::SoundCloud { url: u, .. } => url@ == u.text@,
            TrackSource::Unknown(u) => url@ == u.text@,
        },
        info.0 == source,
        info.1@ == url@,
{
}

/// A download begins with the file of the track, or with the directory if there is none yet, and
/// goes on to the file once the directory is there; the track stays as it is meanwhile.
pub proof fn download_makes_the_file_of_its_track(
    track: TrackState,
    event: DownloadEvent,
    step: DownloadStep,
    source: TrackSource,
    path: String,
)
    requires
        call_ensures(download_step, (&track, event), step),
        call_ensures(TrackState::source, (&track,), source),
        call_ensures(saved_path, (&source,), path),
    ensures
        event is Started || event == DownloadEvent::DirMade(Ok(())) ==> step.state is None,
        event == (DownloadEvent::Started { dir_exists: false }) ==> step.action is MakeDir,
        event == (DownloadEvent::Started { dir_exists: true }) || event == DownloadEvent::DirMade(
            Ok(()),
        ) ==> (step.action matches DownloadAction::MakeFile(p) && p@ == path@),
{
}

/// The download command is given the address of the track and the path at which the track is
/// kept, and the track shows as being downloaded while it runs.
pub proof fn download_fetches_its_track(
    track: TrackState,
    step: DownloadStep,
    source: TrackSource,
    url: String,
    path: String,
)
    requires
        call_ensures(download_step, (&track, DownloadEvent::FileMade(Ok(()))), step),
        call_ensures(TrackState::source, (&track,), source),
        call_ensures(TrackSource::url, (&source,), url),
        call_ensures(saved_path, (&source,), path),
    ensures
        step.state == Some(TrackState::Downloading(source)),
        step.action matches DownloadAction::Run(args) && {
            &&& args@.len() == 7
            &&& args@[0]@ == "-f"@
            &&& args@[1]@ == "bestaudio"@
            &&& args@[2]@ == "--no-continue"@
            &&& args@[3]@ == "--rm-cache-dir"@
            &&& args@[4]@ == url@
            &&& args@[5]@ == "-o"@
            &&& args@[6]@ == path@
        },
{
    let args = step.action->Run_0;
    let all = texts(args@);
    assert(all.len() == args@.len());
    assert(all[0] == args@[0]@ && all[1] == args@[1]@ && all[2] == args@[2]@ && all[3]
        == args@[3]@ && all[4] == args@[4]@ && all[5] == args@[5]@ && all[6] == args@[6]@);
}

/// A download that succeeded leaves its track ready at the path that it was written to, which is
/// where the track is looked for, and the worker is told; whatever the command printed.
pub proof fn finished_download_is_ready(
    track: TrackState,
    stdout: Vec<u8>,
    step: DownloadStep,
    source: TrackSource,
    path: String,
)
    requires
        call_ensures(
            download_step,
            (&track, DownloadEvent::Finished { success: true, stdout }),
            step,
        ),
        call_ensures(TrackState::source, (&track,), source),
        call_ensures(saved_path, (&source,), path),
    ensures
        step.state matches Some(TrackState::Ready { source: s, path: p }) && s == source && p@
            == path@,
        step.action == DownloadAction::Notify(QueueWorkerEvent::SongFinishedDownloading),
{
}

/// A download that did not succeed ends there, and its track says why: with the error of what did
/// not work, or with what the command printed, if that is text. The worker is not told.
pub proof fn broken_download_says_why(
    track: TrackState,
    event: DownloadEvent,
    step: DownloadStep,
    source: TrackSource,
)
    requires
        call_ensures(download_step, (&track, event), step),
        call_ensures(TrackState::source, (&track,), source),
    ensures
        event matches DownloadEvent::DirMade(Err(error)) ==> step.state == Some(
            TrackState::Failed { source, error },
        ) && step.action is Stop,
        event matches DownloadEvent::FileMade(Err(error)) ==> step.state == Some(
            TrackState::Failed { source, error },
        ) && step.action is Stop,
        event matches DownloadEvent::NotRun(error) ==> step.state == Some(
            TrackState::Failed { source, error },
        ) && step.action is Stop,
        event matches DownloadEvent::Finished { success: false, stdout } ==> {
            &&& step.action is Stop
            &&& valid_utf8(stdout@) ==> (step.state matches Some(
                TrackState::SimpleFailed { source: s, error },
            ) && s == source && error@ == "Download command failed: "@ + decode_utf8(stdout@))
            &&& !valid_utf8(stdout@) ==> step.state is None
        },
{
}

} // verus!
