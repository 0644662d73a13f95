use brobot::queue::{
    check_track, now_playing_task, track_lookup, Effect, LastQueueMessage, Queue,
    QueueWorkerEvent, Removal, FULL_VOLUME,
};
use brobot::track::{saved_path, TrackSource, TrackState, TrackUrl};

fn url(text: &str) -> TrackUrl {
    let parsed = url::Url::parse(text).unwrap();
    TrackUrl {
        text: parsed.to_string(),
        host: parsed.host_str().map(|h| h.to_string()),
        debug: format!("{:?}", parsed),
    }
}

fn source(name: &str) -> TrackSource {
    TrackSource::from_url(url(&format!("https://youtu.be/{}", name)), None)
}

/// A queue with one track for each letter: `r` ready, `q` queued, `f` failed, `s` failed with
/// a report of the download.
fn queue(states: &str) -> Queue {
    let mut queue = Queue::new(1, None);
    for (i, c) in states.chars().enumerate() {
        let effects = queue.push_track(source(&i.to_string()), c == 'r');
        assert_eq!(effects.len(), 1);
        match c {
            'f' => {
                let state = queue.state(i as u64).unwrap().fail(String::from("e"));
                queue.set_state(i as u64, state);
            }
            's' => {
                let state = queue.state(i as u64).unwrap().fail_str(String::from("e"));
                queue.set_state(i as u64, state);
            }
            _ => {}
        }
    }
    queue
}

fn waiting(queue: &Queue) -> Vec<u64> {
    (0..20).filter(|t| queue.state(*t).is_some()).collect()
}

#[test]
fn fresh_queues() {
    let fresh = Queue::new(9, None);
    assert_eq!(fresh.bot_id(), 9);
    assert_eq!(fresh.volume(), FULL_VOLUME);
    assert_eq!(f32::from_bits(fresh.volume()), 1.0);
    assert_eq!(Queue::new(9, Some(0.5f32.to_bits())).volume(), 0.5f32.to_bits());
    assert_eq!(fresh.len(), 0);
    assert!(!fresh.is_connected());
    assert_eq!(fresh.to_string(), "Nothing currently playing\nNo queued tracks");
}

#[test]
fn unsupported_addresses_are_refused() {
    let mut q = Queue::new(1, None);
    let e = q.add_track(url("https://example.com/x"), None, false).unwrap_err();
    assert_eq!(e.0, "Unsupported host: example.com");
    let e = q.add_track(url("mailto:someone@example.com"), None, true).unwrap_err();
    assert_eq!(e.0, "No host provided");
    assert_eq!(q.len(), 0);
    assert!(check_track(&url("foo://YOUTUBE.com/x")).is_ok());
    assert!(check_track(&url("https://youtu.be/x")).is_ok());
}

#[test]
fn lookups_of_addresses() {
    assert_eq!(
        track_lookup(&url("https://youtu.be/x")).unwrap().as_deref(),
        Some("https://noembed.com/embed?url=https://youtu.be/x")
    );
    assert_eq!(track_lookup(&url("https://a.bandcamp.com/t")).unwrap(), None);
    assert_eq!(
        track_lookup(&url("https://example.com/x")).unwrap_err().0,
        "Unsupported host: example.com"
    );
}

#[test]
fn new_tracks_are_downloaded() {
    let mut q = Queue::new(1, None);
    let effects = q.enqueue(url("https://youtu.be/x"), None, false).unwrap();
    assert_eq!(effects.len(), 2);
    assert!(matches!(effects[0], Effect::Download { ticket: 0 }));
    assert!(matches!(effects[1], Effect::Notify(QueueWorkerEvent::StateUpdate)));
    assert!(matches!(q.state(0), Some(TrackState::Queueed(_))));
    assert!(!q.can_pop());
}

#[test]
fn saved_tracks_are_ready() {
    let mut q = Queue::new(1, None);
    let effects = q.add_track(url("https://youtu.be/x"), None, true).unwrap();
    assert_eq!(effects.len(), 1);
    assert!(matches!(effects[0], Effect::Notify(QueueWorkerEvent::SongFinishedDownloading)));
    match q.state(0) {
        Some(TrackState::Ready { path, .. }) => assert_eq!(path, saved_path(&source("x"))),
        other => panic!("{:?}", other),
    }
    assert!(q.can_pop());
}

#[test]
fn saved_tracks_play_at_once_in_an_idle_queue() {
    let mut q = Queue::new(1, None);
    q.connect(5);
    q.push_track(source("x"), true);
    assert!(q.moves_on(QueueWorkerEvent::SongFinishedDownloading));
    let effects = q.handle_event(QueueWorkerEvent::SongFinishedDownloading);
    assert_eq!(effects.len(), 2);
    match &effects[0] {
        Effect::OpenAudio { source: s, path } => {
            assert_eq!(s.url(), "https://youtu.be/x");
            assert_eq!(*path, saved_path(&source("x")));
        }
        other => panic!("{:?}", other),
    }
    assert!(matches!(effects[1], Effect::Notify(QueueWorkerEvent::StateUpdate)));
    assert_eq!(q.len(), 0);
    let started = q.start_song(source("x"));
    assert_eq!(started.len(), 1);
    assert!(matches!(started[0], Effect::StartAudio { volume: FULL_VOLUME }));
    assert!(!q.moves_on(QueueWorkerEvent::SongFinishedDownloading));
    assert!(q.moves_on(QueueWorkerEvent::SongFinished));
}

#[test]
fn worker_events() {
    let mut q = Queue::new(1, None);
    assert!(!q.moves_on(QueueWorkerEvent::SongFinishedDownloading));
    q.connect(5);
    assert!(q.moves_on(QueueWorkerEvent::SongFinishedDownloading));
    assert!(!q.moves_on(QueueWorkerEvent::StateUpdate));
    q.pause();
    assert!(!q.moves_on(QueueWorkerEvent::SongFinishedDownloading));
    assert!(q.moves_on(QueueWorkerEvent::SongFinished));
    q.resume();
    q.leave();
    assert!(!q.moves_on(QueueWorkerEvent::SongFinishedDownloading));
    assert_eq!(now_playing_task(true), Some(QueueWorkerEvent::SongFinished));
    assert_eq!(now_playing_task(false), None);
}

#[test]
fn pause_and_resume() {
    let mut q = queue("r");
    let before = q.to_string();
    let effects = q.pause();
    assert_eq!(effects.len(), 1);
    assert!(matches!(effects[0], Effect::Notify(QueueWorkerEvent::StateUpdate)));
    q.resume();
    assert_eq!(q.to_string(), before);
    q.start_song(source("now"));
    let effects = q.pause();
    assert!(matches!(effects[0], Effect::PauseAudio));
    assert_eq!(effects.len(), 2);
    assert_eq!(
        q.to_string(),
        "**Paused on** https://youtu.be/now\n**1**: https://youtu.be/0\n"
    );
    let effects = q.resume();
    assert!(matches!(effects[0], Effect::PlayAudio));
    assert_eq!(effects.len(), 2);
}

#[test]
fn volumes() {
    let mut q = Queue::new(1, None);
    assert!(q.set_volume(7).is_empty());
    assert_eq!(q.volume(), 7);
    q.start_song(source("now"));
    let effects = q.set_volume(8);
    assert_eq!(effects.len(), 1);
    assert!(matches!(effects[0], Effect::SetAudioVolume(8)));
}

#[test]
fn the_first_track_is_not_overtaken() {
    for states in ["qr", "sr", "fr"] {
        let mut q = queue(states);
        q.connect(5);
        assert!(q.next_song().is_empty());
        assert_eq!(q.len(), 2);
        assert!(q.get_next_track().is_none());
        assert_eq!(q.len(), 2);
    }
}

#[test]
fn moving_on_stops_the_current_song() {
    let mut q = Queue::new(1, None);
    q.start_song(source("now"));
    let effects = q.next_song();
    assert_eq!(effects.len(), 1);
    assert!(matches!(effects[0], Effect::PauseAudio));
    assert_eq!(q.to_string(), "Nothing currently playing\nNo queued tracks");
}

#[test]
fn outside_a_channel_a_ready_track_is_lost() {
    let mut q = queue("rq");
    assert!(q.next_song().is_empty());
    assert_eq!(waiting(&q), vec![1]);
}

#[test]
fn held_tracks_are_lost() {
    let mut q = Queue::new(1, None);
    q.connect(5);
    q.push_track(source("x"), false);
    let ready = q.state(0).unwrap().ready(String::from("p"));
    q.set_state(0, ready.clone());
    assert!(q.can_pop());
    assert!(q.get_next_track().is_none());
    assert_eq!(q.len(), 0);
    q.push_track(source("y"), false);
    q.set_state(1, ready);
    q.release(1);
    assert!(matches!(q.get_next_track(), Some(TrackState::Ready { .. })));
    assert_eq!(q.len(), 0);
}

#[test]
fn skipping() {
    let mut q = queue("rr");
    q.connect(5);
    q.start_song(source("now"));
    let effects = q.skip();
    assert_eq!(effects.len(), 3);
    assert!(matches!(effects[0], Effect::PauseAudio));
    assert!(matches!(effects[1], Effect::OpenAudio { .. }));
    assert!(matches!(effects[2], Effect::Notify(QueueWorkerEvent::StateUpdate)));
    assert_eq!(waiting(&q), vec![1]);
}

#[test]
fn joining() {
    let mut q = queue("qr");
    assert!(q.join(5).is_empty());
    assert!(q.is_connected());
    assert_eq!(q.len(), 2);
    let mut q = queue("rq");
    let effects = q.join(5);
    assert_eq!(effects.len(), 2);
    assert!(matches!(effects[0], Effect::OpenAudio { .. }));
    assert!(matches!(effects[1], Effect::Notify(QueueWorkerEvent::StateUpdate)));
    assert_eq!(waiting(&q), vec![1]);
}

#[test]
fn failed_tracks_are_cleared() {
    let cases = [
        ("rfr", vec![0, 2]),
        ("f", vec![]),
        ("rs", vec![0, 1]),
        ("rrf", vec![0, 1]),
        ("ffr", vec![2]),
        ("rff", vec![0]),
        ("ff", vec![]),
        ("frfrr", vec![1, 3, 4]),
        ("fqfsfr", vec![1, 3, 5]),
        ("", vec![]),
        ("rqs", vec![0, 1, 2]),
    ];
    for (states, left) in cases {
        let mut q = queue(states);
        q.connect(5);
        let texts: Vec<String> =
            left.iter().map(|t| q.state(*t).unwrap().to_string()).collect();
        q.clear_failed_tracks();
        assert_eq!(waiting(&q), left);
        assert_eq!(q.len(), left.len());
        for (ticket, text) in left.iter().zip(texts) {
            assert_eq!(q.state(*ticket).unwrap().to_string(), text);
        }
        assert!(q.is_connected());
        let once = q.to_string();
        q.clear_failed_tracks();
        assert_eq!(q.to_string(), once);
    }
}

#[test]
fn failed_tracks_do_not_hold_up_the_worker() {
    let mut q = queue("ffrr");
    q.connect(5);
    let effects = q.advance();
    assert_eq!(effects.len(), 2);
    match &effects[0] {
        Effect::OpenAudio { source, .. } => assert_eq!(source.url(), "https://youtu.be/2"),
        other => panic!("{:?}", other),
    }
    assert_eq!(waiting(&q), vec![3]);
}

#[test]
fn events_that_do_not_move_the_queue() {
    let mut q = queue("fr");
    let before = q.to_string();
    assert!(q.handle_event(QueueWorkerEvent::StateUpdate).is_empty());
    assert!(q.handle_event(QueueWorkerEvent::SongFinishedDownloading).is_empty());
    assert_eq!(q.to_string(), before);
    let effects = q.handle_event(QueueWorkerEvent::SongFinished);
    assert_eq!(effects.len(), 1);
    assert!(matches!(effects[0], Effect::Notify(QueueWorkerEvent::StateUpdate)));
    assert_eq!(q.len(), 0);
}

#[test]
fn starting() {
    let mut q = queue("rr");
    q.connect(5);
    q.pause();
    let effects = q.start();
    assert_eq!(effects.len(), 2);
    match &effects[0] {
        Effect::OpenAudio { source, .. } => assert_eq!(source.url(), "https://youtu.be/0"),
        other => panic!("{:?}", other),
    }
    assert!(matches!(effects[1], Effect::Notify(QueueWorkerEvent::StateUpdate)));
    assert_eq!(waiting(&q), vec![1]);
    assert!(q.moves_on(QueueWorkerEvent::SongFinishedDownloading));

    q.start_song(source("now"));
    q.pause();
    let effects = q.start();
    assert_eq!(effects.len(), 2);
    assert!(matches!(effects[0], Effect::PlayAudio));
    assert_eq!(waiting(&q), vec![1]);

    let mut q = queue("r");
    q.pause();
    let effects = q.start();
    assert_eq!(effects.len(), 1);
    assert!(matches!(effects[0], Effect::Notify(QueueWorkerEvent::StateUpdate)));
    assert_eq!(waiting(&q), vec![0]);
}

#[test]
fn starting_with_nothing_ready() {
    for states in ["qr", "sr", "fr", ""] {
        let mut q = queue(states);
        q.connect(5);
        q.pause();
        assert!(q.start().is_empty());
        assert_eq!(q.len(), states.len());
        assert!(!q.moves_on(QueueWorkerEvent::SongFinishedDownloading));
    }
}

#[test]
fn starting_keeps_held_tracks() {
    let mut q = queue("qr");
    q.connect(5);
    q.pause();
    let ready = q.state(0).unwrap().ready(String::from("p"));
    q.set_state(0, ready);
    let effects = q.start();
    assert_eq!(effects.len(), 1);
    assert!(matches!(effects[0], Effect::Notify(QueueWorkerEvent::StateUpdate)));
    assert_eq!(waiting(&q), vec![0, 1]);

    q.release(0);
    let effects = q.handle_event(QueueWorkerEvent::SongFinishedDownloading);
    match &effects[0] {
        Effect::OpenAudio { source, path } => {
            assert_eq!(source.url(), "https://youtu.be/0");
            assert_eq!(path, "p");
        }
        other => panic!("{:?}", other),
    }
    assert_eq!(waiting(&q), vec![1]);
}

#[test]
fn clearing_everything() {
    let mut q = queue("rqf");
    q.clear();
    assert_eq!(q.len(), 0);
}

#[test]
fn removing_by_number() {
    let mut q = queue("rqr");
    match q.remove(2) {
        Removal::Removed(effects) => {
            assert_eq!(effects.len(), 1);
            assert!(matches!(effects[0], Effect::Notify(QueueWorkerEvent::StateUpdate)));
        }
        other => panic!("{:?}", other),
    }
    assert_eq!(waiting(&q), vec![0, 2]);
    match q.remove(3) {
        Removal::Invalid(text) => assert_eq!(text, "Invalid index, should be between 1 and 2"),
        other => panic!("{:?}", other),
    }
    assert_eq!(waiting(&q), vec![0, 2]);
    match q.remove(0) {
        Removal::Invalid(text) => assert_eq!(text, "Invalid index, should be between 1 and 2"),
        other => panic!("{:?}", other),
    }
    assert_eq!(waiting(&q), vec![0, 2]);
    assert!(matches!(Queue::new(1, None).remove(1), Removal::Nothing));
    assert!(matches!(Queue::new(1, None).remove(0), Removal::Nothing));
}

#[test]
fn states_of_other_tracks_stay() {
    let mut q = queue("qqq");
    let failed = q.state(1).unwrap().fail(String::from("e"));
    q.set_state(1, failed.clone());
    assert!(matches!(q.state(0), Some(TrackState::Queueed(_))));
    assert!(matches!(q.state(1), Some(TrackState::Failed { .. })));
    assert!(matches!(q.state(2), Some(TrackState::Queueed(_))));
    let before = q.to_string();
    q.set_state(9, failed);
    q.release(9);
    assert_eq!(q.to_string(), before);
}

#[test]
fn tickets_are_not_used_twice() {
    let mut q = queue("rr");
    assert!(q.has_ticket());
    q.clear();
    q.push_track(source("x"), false);
    assert_eq!(waiting(&q), vec![2]);
}

#[test]
fn listings() {
    let mut q = queue("rqf");
    q.connect(123);
    q.start_song(source("now"));
    assert_eq!(
        q.to_string(),
        "Currently connected to: <#123>\n**Playing** https://youtu.be/now\n\
         **1**: https://youtu.be/0\n\
         **2**: **Queued & Processing** https://youtu.be/1\n\
         **3**: **Failed** https://youtu.be/2, e\n"
    );
}

#[test]
fn the_message_that_shows_the_queue() {
    let mut q = queue("r");
    assert!(q.message_update().is_none());
    let last = LastQueueMessage { channel_id: 3, message_id: 4 };
    q.set_last_queue_message(last);
    let (shown, params) = q.message_update().unwrap();
    assert_eq!(shown, last);
    assert_eq!(params.message, Some(q.to_string()));
    assert!(params.title.is_none() && params.color.is_none() && params.fields.is_none());
}
