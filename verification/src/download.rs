//! Downloading a track, one step after the other.

use vstd::prelude::*;
use vstd::string::*;
use vstd::utf8::*;

use crate::queue::{is_added, Effect, QueueModel, QueueWorkerEvent};
use crate::text::text_of_utf8;
use crate::track::{saved_path, track_path, TrackState};

verus! {

/// What has happened to a download.
#[derive(Debug)]
pub enum DownloadEvent {
    /// The download begins; `dir_exists` says whether there is a directory for it.
    Started { dir_exists: bool },
    /// The directory was to be made.
    DirMade(Result<(), String>),
    /// The file was to be made.
    FileMade(Result<(), String>),
    /// The command has run.
    Finished { success: bool, stdout: Vec<u8> },
    /// The command could not be run.
    NotRun(String),
}

/// What a download does next.
#[derive(Debug)]
pub enum DownloadAction {
    /// Make the directory of saved tracks.
    MakeDir,
    /// Make the file at the given path.
    MakeFile(String),
    /// Run the download command with the given arguments.
    Run(Vec<String>),
    /// Tell the worker; the download is over.
    Notify(QueueWorkerEvent),
    /// Nothing; the download is over.
    Stop,
}

/// The state that the track takes on, if it changes, and what is done next.
#[derive(Debug)]
pub struct DownloadStep {
    pub state: Option<TrackState>,
    pub action: DownloadAction,
}

/// The arguments of the download command.
pub open spec fn command_args(url: Seq<char>, path: Seq<char>) -> Seq<Seq<char>> {
    seq![
        "-f"@,
        "bestaudio"@,
        "--no-continue"@,
        "--rm-cache-dir"@,
        url,
        "-o"@,
        path,
    ]
}

/// The characters of each text.
pub open spec fn texts(args: Seq<String>) -> Seq<Seq<char>> {
    args.map_values(|s: String| s@)
}

/// Whether a track has failed with the given error.
pub open spec fn has_failed(track: TrackState, error: String, step: DownloadStep) -> bool {
    &&& step.state == Some(TrackState::Failed { source: track.origin(), error })
    &&& step.action is Stop
}

/// Whether the file of a track is to be made, with the state of the track as it is.
pub open spec fn makes_file(track: TrackState, step: DownloadStep) -> bool {
    &&& step.state is None
    &&& step.action matches DownloadAction::MakeFile(path)
    &&& path@ == track_path(track.origin())
}

/// Whether `step` is what follows when `event` happens to the download of `track`.
pub open spec fn is_download_step(
    track: TrackState,
    event: DownloadEvent,
    step: DownloadStep,
) -> bool {
    match event {
        DownloadEvent::Started { dir_exists: true } => makes_file(track, step),
        DownloadEvent::Started { dir_exists: false } => step.state is None
            && step.action is MakeDir,
        DownloadEvent::DirMade(Ok(())) => makes_file(track, step),
        DownloadEvent::DirMade(Err(error)) => has_failed(track, error, step),
        DownloadEvent::FileMade(Ok(())) => {
            &&& step.state == Some(TrackState::Downloading(track.origin()))
            &&& step.action matches DownloadAction::Run(args)
            &&& texts(args@) == command_args(
                track.origin().address().text@,
                track_path(track.origin()),
            )
        },
        DownloadEvent::FileMade(Err(error)) => has_failed(track, error, step),
        DownloadEvent::Finished { success: true, stdout: _ } => {
            &&& step.state matches Some(TrackState::Ready { source, path })
            &&& source == track.origin()
            &&& path@ == track_path(track.origin())
            &&& step.action == DownloadAction::Notify(QueueWorkerEvent::SongFinishedDownloading)
        },
        DownloadEvent::Finished { success: false, stdout } => {
            &&& step.action is Stop
            &&& if valid_utf8(stdout@) {
                &&& step.state matches Some(TrackState::SimpleFailed { source, error })
                &&& source == track.origin()
                &&& error@ == "Download command failed: "@ + decode_utf8(stdout@)
            } else {
                step.state is None
            }
        },
        DownloadEvent::NotRun(error) => has_failed(track, error, step),
    }
}

fn download_command(url: String, path: String) -> (r: Vec<String>)
    ensures
        texts(r@) == command_args(url@, path@),
{
    let mut args: Vec<String> = Vec::new();
    args.push("-f".to_owned());
    args.push("bestaudio".to_owned());
    args.push("--no-continue".to_owned());
    args.push("--rm-cache-dir".to_owned());
    args.push(url);
    args.push("-o".to_owned());
    args.push(path);
    assert(texts(args@) =~= command_args(url@, path@));
    args
}

/// What follows when `event` happens to the download of `track`.
pub fn download_step(track: &TrackState, event: DownloadEvent) -> (r: DownloadStep)
    ensures
        is_download_step(*track, event, r),
{
    let (source, url) = track.get_info();
    let file_path = saved_path(&source);
    match event {
        DownloadEvent::Started { dir_exists } => DownloadStep {
            state: None,
            action: if dir_exists {
                DownloadAction::MakeFile(file_path)
            } else {
                DownloadAction::MakeDir
            },
        },
        DownloadEvent::DirMade(Ok(())) => DownloadStep {
            state: None,
            action: DownloadAction::MakeFile(file_path),
        },
        DownloadEvent::FileMade(Ok(())) => DownloadStep {
            state: Some(TrackState::Downloading(source)),
            action: DownloadAction::Run(download_command(url, file_path)),
        },
        DownloadEvent::Finished { success, stdout } => if success {
            DownloadStep {
                state: Some(track.ready(file_path)),
                action: DownloadAction::Notify(QueueWorkerEvent::SongFinishedDownloading),
            }
        } else {
            match text_of_utf8(stdout) {
                Some(text) => {
                    let mut error = "Download command failed: ".to_owned();
                    error.append(text.as_str());
                    DownloadStep {
                        state: Some(track.fail_str(error)),
                        action: DownloadAction::Stop,
                    }
                },
                None => DownloadStep { state: None, action: DownloadAction::Stop },
            }
        },
        DownloadEvent::DirMade(Err(error))
        | DownloadEvent::FileMade(Err(error))
        | DownloadEvent::NotRun(error) => DownloadStep {
            state: Some(track.fail(error)),
            action: DownloadAction::Stop,
        },
    }
}

/// No step of a download changes where the track comes from.
pub proof fn download_keeps_source(track: TrackState, event: DownloadEvent, step: DownloadStep)
    requires
        is_download_step(track, event, step),
    ensures
        step.state matches Some(state) ==> state.origin() == track.origin(),
{
}

/// Whether an event is what comes back when an action was done.
pub open spec fn follows(action: DownloadAction, event: DownloadEvent) -> bool {
    match action {
        DownloadAction::MakeDir => event is DirMade,
        DownloadAction::MakeFile(_) => event is FileMade,
        DownloadAction::Run(_) => event is Finished || event is NotRun,
        DownloadAction::Notify(_) => false,
        DownloadAction::Stop => false,
    }
}

/// Whether nothing comes after an action.
pub open spec fn ends_download(action: DownloadAction) -> bool {
    action is Notify || action is Stop
}

/// The state of a track after some steps of its download.
pub open spec fn state_after(track: TrackState, steps: Seq<DownloadStep>) -> TrackState
    decreases steps.len(),
{
    if steps.len() == 0 {
        track
    } else {
        match steps.last().state {
            Some(state) => state,
            None => state_after(track, steps.drop_last()),
        }
    }
}

/// Whether events and steps are a whole run of the download of `track`, from its beginning to
/// its end.
pub open spec fn is_download_run(
    track: TrackState,
    events: Seq<DownloadEvent>,
    steps: Seq<DownloadStep>,
) -> bool {
    &&& events.len() == steps.len() > 0
    &&& events[0] is Started
    &&& forall|k: int|
        0 <= k < steps.len() ==> is_download_step(
            state_after(track, steps.take(k)),
            #[trigger] events[k],
            steps[k],
        )
    &&& forall|k: int|
        0 < k < steps.len() ==> follows(steps[k - 1].action, #[trigger] events[k])
    &&& ends_download(steps.last().action)
}

proof fn lemma_run_keeps_source(
    track: TrackState,
    events: Seq<DownloadEvent>,
    steps: Seq<DownloadStep>,
    k: int,
)
    requires
        is_download_run(track, events, steps),
        0 <= k <= steps.len(),
    ensures
        state_after(track, steps.take(k)).origin() == track.origin(),
    decreases k,
{
    if k > 0 {
        lemma_run_keeps_source(track, events, steps, k - 1);
        assert(steps.take(k).drop_last() =~= steps.take(k - 1));
        let before = state_after(track, steps.take(k - 1));
        assert(is_download_step(before, events[k - 1], steps[k - 1]));
        download_keeps_source(before, events[k - 1], steps[k - 1]);
    }
}

/// The worker is told of a download exactly if the track ends up ready: a whole run of a
/// download tells it nothing before its last step, and there it tells of a finished download
/// if the track is ready, and nothing otherwise. The source of the track stays what it was.
pub proof fn worker_is_told_of_ready_tracks(
    track: TrackState,
    events: Seq<DownloadEvent>,
    steps: Seq<DownloadStep>,
)
    requires
        is_download_run(track, events, steps),
    ensures
        forall|k: int| 0 <= k < steps.len() - 1 ==> !((#[trigger] steps[k]).action is Notify),
        state_after(track, steps) is Ready <==> steps.last().action is Notify,
        steps.last().action is Notify ==> steps.last().action == DownloadAction::Notify(
            QueueWorkerEvent::SongFinishedDownloading,
        ),
        state_after(track, steps).origin() == track.origin(),
{
    let last = steps.len() - 1;
    assert forall|k: int| 0 <= k < steps.len() - 1 implies !((
    #[trigger] steps[k]).action is Notify) by {
        assert(follows(steps[k + 1 - 1].action, events[k + 1]));
    }
    assert(steps.drop_last() =~= steps.take(last));
    assert(is_download_step(state_after(track, steps.take(last)), events[last], steps[last]));
    if last > 0 {
        assert(follows(steps[last - 1].action, events[last]));
        assert(steps.take(last).drop_last() =~= steps.take(last - 1));
        assert(is_download_step(
            state_after(track, steps.take(last - 1)),
            events[last - 1],
            steps[last - 1],
        ));
    }
    lemma_run_keeps_source(track, events, steps, steps.len() as int);
    assert(steps.take(steps.len() as int) =~= steps);
}

/// A download comes to an end: no run has more than four steps.
pub proof fn download_ends(
    track: TrackState,
    events: Seq<DownloadEvent>,
    steps: Seq<DownloadStep>,
)
    requires
        is_download_run(track, events, steps),
    ensures
        steps.len() <= 4,
{
    if steps.len() > 4 {
        assert forall|k: int| 0 <= k < 5 implies is_download_step(
            state_after(track, steps.take(k)),
            #[trigger] events[k],
            steps[k],
        ) by {}
        assert(follows(steps[1 - 1].action, events[1]));
        assert(follows(steps[2 - 1].action, events[2]));
        assert(follows(steps[3 - 1].action, events[3]));
        assert(follows(steps[4 - 1].action, events[4]));
    }
}

/// A track is played from the file that its download wrote: the path at which a finished
/// download leaves it is the one at which it is looked for when it is added again.
pub proof fn download_is_found_again(
    track: TrackState,
    stdout: Vec<u8>,
    step: DownloadStep,
    before: QueueModel,
    after: QueueModel,
    effects: Seq<Effect>,
)
    requires
        is_download_step(track, DownloadEvent::Finished { success: true, stdout }, step),
        is_added(before, track.origin(), true, after, effects),
    ensures
        after.tracks.last().state is Ready,
        (step.state->0)->path@ == after.tracks.last().state->path@,
{
}

} // verus!
