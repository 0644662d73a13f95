use brobot::download::{download_step, DownloadAction, DownloadEvent};
use brobot::queue::QueueWorkerEvent;
use brobot::track::{saved_path, TrackSource, TrackState, TrackUrl};

fn source() -> TrackSource {
    TrackSource::from_url(
        TrackUrl {
            text: String::from("https://youtu.be/x"),
            host: Some(String::from("youtu.be")),
            debug: String::new(),
        },
        None,
    )
}

fn track() -> TrackState {
    TrackState::Queueed(source())
}

#[test]
fn a_download_that_succeeds() {
    let step = download_step(&track(), DownloadEvent::Started { dir_exists: false });
    assert!(step.state.is_none());
    assert!(matches!(step.action, DownloadAction::MakeDir));
    for event in [DownloadEvent::DirMade(Ok(())), DownloadEvent::Started { dir_exists: true }] {
        let step = download_step(&track(), event);
        assert!(step.state.is_none());
        match step.action {
            DownloadAction::MakeFile(path) => assert_eq!(path, saved_path(&source())),
            other => panic!("{:?}", other),
        }
    }
    let step = download_step(&track(), DownloadEvent::FileMade(Ok(())));
    let downloading = step.state.unwrap();
    assert!(matches!(downloading, TrackState::Downloading(_)));
    let path = saved_path(&source());
    match step.action {
        DownloadAction::Run(args) => assert_eq!(
            args,
            vec![
                "-f",
                "bestaudio",
                "--no-continue",
                "--rm-cache-dir",
                "https://youtu.be/x",
                "-o",
                path.as_str()
            ]
        ),
        other => panic!("{:?}", other),
    }
    let step =
        download_step(&downloading, DownloadEvent::Finished { success: true, stdout: vec![0xff] });
    match step.state {
        Some(TrackState::Ready { source: s, path: p }) => {
            assert_eq!(s.url(), "https://youtu.be/x");
            assert_eq!(p, path);
        }
        other => panic!("{:?}", other),
    }
    assert!(matches!(
        step.action,
        DownloadAction::Notify(QueueWorkerEvent::SongFinishedDownloading)
    ));
}

#[test]
fn a_download_that_cannot_be_done() {
    let events = [
        DownloadEvent::DirMade(Err(String::from("why"))),
        DownloadEvent::FileMade(Err(String::from("why"))),
        DownloadEvent::NotRun(String::from("why")),
    ];
    for event in events {
        let step = download_step(&track(), event);
        assert!(matches!(step.action, DownloadAction::Stop));
        match step.state {
            Some(TrackState::Failed { source: s, error }) => {
                assert_eq!(s.url(), "https://youtu.be/x");
                assert_eq!(error, "why");
            }
            other => panic!("{:?}", other),
        }
    }
}

#[test]
fn a_download_that_reports_a_failure() {
    let event = DownloadEvent::Finished { success: false, stdout: "nö".as_bytes().to_vec() };
    let step = download_step(&track(), event);
    assert!(matches!(step.action, DownloadAction::Stop));
    match step.state {
        Some(TrackState::SimpleFailed { error, .. }) => {
            assert_eq!(error, "Download command failed: nö")
        }
        other => panic!("{:?}", other),
    }
    let event = DownloadEvent::Finished { success: false, stdout: vec![0x6e, 0xff] };
    let step = download_step(&track(), event);
    assert!(step.state.is_none());
    assert!(matches!(step.action, DownloadAction::Stop));
}

/// Runs a download whose outside work ends as given, and gives the last state of the track and
/// how often the worker was told.
fn run(
    start: &TrackState,
    dir: bool,
    dir_made: bool,
    file_made: bool,
    success: Option<bool>,
) -> (TrackState, usize) {
    let outcome = |ok: bool| if ok { Ok(()) } else { Err(String::from("why")) };
    let mut state = start.clone();
    let mut told = 0;
    let mut event = DownloadEvent::Started { dir_exists: dir };
    for _ in 0..4 {
        let step = download_step(&state, event);
        if let Some(next) = step.state {
            state = next;
        }
        event = match step.action {
            DownloadAction::MakeDir => DownloadEvent::DirMade(outcome(dir_made)),
            DownloadAction::MakeFile(_) => DownloadEvent::FileMade(outcome(file_made)),
            DownloadAction::Run(_) => match success {
                Some(success) => DownloadEvent::Finished { success, stdout: vec![0xff] },
                None => DownloadEvent::NotRun(String::from("why")),
            },
            DownloadAction::Notify(sent) => {
                assert_eq!(sent, QueueWorkerEvent::SongFinishedDownloading);
                told += 1;
                return (state, told);
            }
            DownloadAction::Stop => return (state, told),
        };
    }
    panic!("the download goes on");
}

#[test]
fn the_worker_is_told_exactly_of_ready_tracks() {
    for dir in [true, false] {
        for dir_made in [true, false] {
            for file_made in [true, false] {
                for success in [Some(true), Some(false), None] {
                    for start in [track(), track().ready(String::from("p"))] {
                        let (state, told) = run(&start, dir, dir_made, file_made, success);
                        let ready = matches!(state, TrackState::Ready { .. });
                        assert_eq!(told, if ready { 1 } else { 0 });
                        assert_eq!(ready, (dir || dir_made) && file_made && success == Some(true));
                        assert_eq!(state.get_info().1, start.get_info().1);
                    }
                }
            }
        }
    }
}
