//! The queue of one guild: what is playing, what waits, and how both move on.

use vstd::prelude::*;
use vstd::string::*;
use vstd::utf8::is_ascii_chars;

use crate::error::StringError;
use crate::message::{channel_mention, mention, MessageParams};
use crate::text::{ascii_lower, decimal, lowercase, push_decimal};
use crate::track::{
    embed_query, embed_request, is_youtube_dl_capable_host, saved_path, supported_host,
    track_path, EmbedInfo, TrackSource, TrackState, TrackUrl,
};

verus! {

/// What the worker of a queue is told.
#[derive(Debug, Clone, Copy, PartialEq, Eq, Structural)]
pub enum QueueWorkerEvent {
    SongFinished,
    SongFinishedDownloading,
    /// A song was skipped, paused, resumed and the like.
    StateUpdate,
}

/// What is to be done outside the queue, in the order in which effects are listed.
#[derive(Debug)]
pub enum Effect {
    /// Pause the audio of the current song.
    PauseAudio,
    /// Play the audio of the current song.
    PlayAudio,
    /// Set the volume of the current song.
    SetAudioVolume(u32),
    /// Open the file at `path`; if that works, `source` is what plays next.
    OpenAudio { source: TrackSource, path: String },
    /// Play what was opened, alone and at the given volume, and watch for its end.
    StartAudio { volume: u32 },
    /// Download the track that has the given ticket.
    Download { ticket: u64 },
    /// Tell the worker.
    Notify(QueueWorkerEvent),
}

/// A waiting track. The ticket tells it from all others; it is held while its download is
/// still running.
#[derive(Debug)]
pub struct Track {
    pub ticket: u64,
    pub state: TrackState,
    pub held: bool,
}

/// The message that shows the queue and is kept up to date.
#[derive(Debug, Clone, Copy, PartialEq, Eq, Structural)]
pub struct LastQueueMessage {
    pub channel_id: u64,
    pub message_id: u64,
}

/// The queue of one guild. A volume is the bit pattern of a single-precision number.
///
/// Every queue comes from `new`, and no operation breaks the order of its tracks.
#[derive(Debug)]
pub struct Queue {
    currently_playing: Option<TrackSource>,
    connected_channel: Option<u64>,
    tracks: Vec<Track>,
    next_ticket: u64,
    last_queue_message: Option<LastQueueMessage>,
    bot_id: u64,
    paused: bool,
    volume: u32,
}

/// The contents of a queue.
#[verifier::ext_equal]
pub struct QueueModel {
    pub currently_playing: Option<TrackSource>,
    pub connected_channel: Option<u64>,
    pub tracks: Seq<Track>,
    pub next_ticket: u64,
    pub last_queue_message: Option<LastQueueMessage>,
    pub bot_id: u64,
    pub paused: bool,
    pub volume: u32,
}

impl View for Queue {
    type V = QueueModel;

    closed spec fn view(&self) -> QueueModel {
        QueueModel {
            currently_playing: self.currently_playing,
            connected_channel: self.connected_channel,
            tracks: self.tracks@,
            next_ticket: self.next_ticket,
            last_queue_message: self.last_queue_message,
            bot_id: self.bot_id,
            paused: self.paused,
            volume: self.volume,
        }
    }
}

/// The bit pattern of the number one.
pub const FULL_VOLUME: u32 = 0x3f80_0000;

impl QueueModel {
    /// Tracks stand in the order in which they were added: their tickets grow, and all of
    /// them have been given out.
    pub open spec fn wf(self) -> bool {
        &&& forall|i: int, j: int|
            0 <= i < j < self.tracks.len() ==> (#[trigger] self.tracks[i]).ticket < (
            #[trigger] self.tracks[j]).ticket
        &&& forall|i: int|
            0 <= i < self.tracks.len() ==> (#[trigger] self.tracks[i]).ticket < self.next_ticket
    }

    /// The queue without its tracks in the state `Failed`; all others stay, in their order.
    pub open spec fn cleared(self) -> QueueModel {
        QueueModel { tracks: self.tracks.filter(|t: Track| !(t.state is Failed)), ..self }
    }

    /// Whether the first track can be played.
    pub open spec fn head_ready(self) -> bool {
        self.tracks.len() > 0 && self.tracks[0].state is Ready
    }

    /// The queue after moving on to the next song: nothing plays, and a track that was
    /// ready at the head is gone from the list.
    pub open spec fn moved_on(self) -> QueueModel {
        QueueModel {
            currently_playing: None,
            tracks: if self.head_ready() {
                self.tracks.drop_first()
            } else {
                self.tracks
            },
            ..self
        }
    }

    /// What moving on to the next song asks for: the current song is stopped, and a track
    /// that was ready at the head is opened if there is a channel to play it in and its
    /// download no longer holds it.
    pub open spec fn moving_on(self) -> Seq<Effect> {
        (if self.currently_playing is Some {
            seq![Effect::PauseAudio]
        } else {
            Seq::empty()
        }) + (if self.head_ready() && !self.tracks[0].held && self.connected_channel is Some {
            seq![
                Effect::OpenAudio {
                    source: self.tracks[0].state->Ready_source,
                    path: self.tracks[0].state->path,
                },
            ]
        } else {
            Seq::empty()
        })
    }
}

/// The tracks with the one that has the given ticket in another state.
pub open spec fn with_state(tracks: Seq<Track>, ticket: u64, state: TrackState) -> Seq<Track> {
    tracks.map_values(
        |t: Track|
            if t.ticket == ticket {
                Track { state, ..t }
            } else {
                t
            },
    )
}

/// The tracks with the one that has the given ticket no longer held.
pub open spec fn with_release(tracks: Seq<Track>, ticket: u64) -> Seq<Track> {
    tracks.map_values(
        |t: Track|
            if t.ticket == ticket {
                Track { held: false, ..t }
            } else {
                t
            },
    )
}

/// One line of a listing.
pub open spec fn track_line(number: nat, state: TrackState) -> Seq<char> {
    "**"@ + decimal(number) + "**: "@ + state.shown() + "\n"@
}

/// The lines of a listing, numbered from one.
pub open spec fn track_lines(tracks: Seq<Track>) -> Seq<char>
    decreases tracks.len(),
{
    if tracks.len() == 0 {
        Seq::empty()
    } else {
        track_lines(tracks.drop_last()) + track_line(tracks.len(), tracks.last().state)
    }
}

/// The channel of a queue as it is shown.
pub open spec fn channel_text(channel: Option<u64>) -> Seq<char> {
    match channel {
        Some(id) => "Currently connected to: "@ + channel_mention(id) + "\n"@,
        None => Seq::empty(),
    }
}

/// The current song of a queue as it is shown.
pub open spec fn playing_text(playing: Option<TrackSource>, paused: bool) -> Seq<char> {
    match playing {
        Some(source) => "**"@ + (if paused {
            "Paused on"@
        } else {
            "Playing"@
        }) + "** "@ + source.shown() + "\n"@,
        None => "Nothing currently playing\n"@,
    }
}

/// A queue as it is shown.
pub open spec fn queue_text(q: QueueModel) -> Seq<char> {
    channel_text(q.connected_channel) + playing_text(q.currently_playing, q.paused) + (
    if q.tracks.len() == 0 {
        "No queued tracks"@
    } else {
        track_lines(q.tracks)
    })
}

/// Whether an event makes a queue move on to its next song: always when a song has ended,
/// and when a download has ended while nothing plays, the bot is in a channel, and the queue
/// is not paused.
pub open spec fn moves_on(q: QueueModel, event: QueueWorkerEvent) -> bool {
    match event {
        QueueWorkerEvent::SongFinished => true,
        QueueWorkerEvent::SongFinishedDownloading => q.currently_playing is None
            && q.connected_channel is Some && !q.paused,
        QueueWorkerEvent::StateUpdate => false,
    }
}

/// What watching the current song reports: its end.
pub fn now_playing_task(finished: bool) -> (r: Option<QueueWorkerEvent>)
    ensures
        r == if finished {
            Some(QueueWorkerEvent::SongFinished)
        } else {
            None
        },
{
    if finished {
        Some(QueueWorkerEvent::SongFinished)
    } else {
        None
    }
}

/// Whether tracks cannot be taken from an address, and what is then said.
pub open spec fn track_refusal(url: TrackUrl) -> Option<Seq<char>> {
    match url.host {
        Some(host) => if supported_host(lowercase(host@)) {
            None
        } else {
            Some("Unsupported host: "@ + host@)
        },
        None => Some("No host provided"@),
    }
}

/// Checks that a track can be taken from an address.
pub fn check_track(url: &TrackUrl) -> (r: Result<(), StringError>)
    ensures
        match r {
            Ok(()) => track_refusal(*url) is None,
            Err(e) => track_refusal(*url) == Some(e.0@),
        },
        url.host matches Some(host) && is_ascii_chars(host@) ==> lowercase(url.host->0@)
            == url.host->0@.map_values(|c: char| ascii_lower(c)),
{
    match &url.host {
        Some(host) => if is_youtube_dl_capable_host(host.as_str()) {
            Ok(())
        } else {
            let mut text = "Unsupported host: ".to_owned();
            text.append(host.as_str());
            Err(StringError(text))
        },
        None => Err(StringError::from("No host provided")),
    }
}

/// Checks that a track can be taken from an address, and gives the request that describes
/// it, if there is one to make.
pub fn track_lookup(url: &TrackUrl) -> (r: Result<Option<String>, StringError>)
    ensures
        match r {
            Ok(None) => track_refusal(*url) is None && embed_query(*url) is None,
            Ok(Some(request)) => track_refusal(*url) is None && embed_query(*url) == Some(
                request@,
            ),
            Err(e) => track_refusal(*url) == Some(e.0@),
        },
{
    match check_track(url) {
        Ok(()) => Ok(embed_request(url)),
        Err(e) => Err(e),
    }
}

impl Queue {
    /// The queue of a guild in which nothing has happened yet.
    pub fn new(bot_id: u64, volume: Option<u32>) -> (r: Self)
        ensures
            r@.wf(),
            r@ == (QueueModel {
                currently_playing: None,
                connected_channel: None,
                tracks: Seq::empty(),
                next_ticket: 0,
                last_queue_message: None,
                bot_id,
                paused: false,
                volume: match volume {
                    Some(v) => v,
                    None => FULL_VOLUME,
                },
            }),
    {
        Queue {
            currently_playing: None,
            connected_channel: None,
            tracks: Vec::new(),
            next_ticket: 0,
            last_queue_message: None,
            bot_id,
            paused: false,
            volume: match volume {
                Some(v) => v,
                None => FULL_VOLUME,
            },
        }
    }

    /// Drops all waiting tracks.
    pub fn clear(&mut self)
        ensures
            final(self)@ == (QueueModel { tracks: Seq::empty(), ..old(self)@ }),
            final(self)@.wf(),
    {
        self.tracks.clear();
    }

    /// The queue as it is shown.
    pub fn to_string(&self) -> (r: String)
        ensures
            r@ == queue_text(self@),
    {
        let mut buf = String::new();
        if let Some(channel) = self.connected_channel {
            buf.append("Currently connected to: ");
            buf.append(mention(channel).as_str());
            buf.append("\n");
        }
        assert(buf@ =~= channel_text(self@.connected_channel));
        let ghost connected = buf@;
        if let Some(source) = &self.currently_playing {
            buf.append("**");
            if self.paused {
                buf.append("Paused on");
            } else {
                buf.append("Playing");
            }
            buf.append("** ");
            buf.append(source.to_string().as_str());
            buf.append("\n");
        } else {
            buf.append("Nothing currently playing\n");
        }
        assert(buf@ =~= connected + playing_text(self@.currently_playing, self@.paused));
        let ghost head = buf@;
        if self.tracks.len() > 0 {
            let mut idx: usize = 0;
            assert(self.tracks@.take(0) =~= Seq::empty());
            assert(buf@ =~= head + track_lines(self.tracks@.take(0)));
            while idx < self.tracks.len()
                invariant
                    idx <= self.tracks@.len(),
                    buf@ == head + track_lines(self.tracks@.take(idx as int)),
                decreases self.tracks@.len() - idx,
            {
                buf.append("**");
                push_decimal(&mut buf, idx as u64 + 1);
                buf.append("**: ");
                buf.append(self.tracks[idx].state.to_string().as_str());
                buf.append("\n");
                proof {
                    let listed = self.tracks@.take(idx + 1);
                    assert(listed.drop_last() =~= self.tracks@.take(idx as int));
                    assert(buf@ =~= head + (track_lines(listed.drop_last()) + track_line(
                        (idx + 1) as nat,
                        self.tracks@[idx as int].state,
                    )));
                }
                idx = idx + 1;
            }
            assert(self.tracks@.take(idx as int) =~= self.tracks@);
        } else {
            buf.append("No queued tracks");
        }
        buf
    }

    /// Drops the tracks in the state `Failed`. Those in the state `SimpleFailed` stay.
    pub fn clear_failed_tracks(&mut self)
        requires
            old(self)@.wf(),
        ensures
            final(self)@ == old(self)@.cleared(),
            final(self)@.wf(),
    {
        let ghost start = self@;
        let ghost kept = |t: Track| !(t.state is Failed);
        let ghost mut seen: int = 0;
        let mut idx: usize = 0;
        proof {
            reveal(Seq::filter);
            assert(start.tracks.take(0).filter(kept) =~= Seq::empty());
            assert(self.tracks@ =~= Seq::<Track>::empty() + start.tracks.skip(0));
        }
        while idx < self.tracks.len()
            invariant
                0 <= seen <= start.tracks.len(),
                kept == (|t: Track| !(t.state is Failed)),
                idx == start.tracks.take(seen).filter(kept).len(),
                self@ == (QueueModel {
                    tracks: start.tracks.take(seen).filter(kept) + start.tracks.skip(seen),
                    ..start
                }),
                self.tracks@ == self@.tracks,
                self@.wf(),
            decreases self.tracks@.len() - idx,
        {
            let ghost before = start.tracks.take(seen).filter(kept);
            proof {
                reveal(Seq::filter);
                assert(start.tracks.take(seen + 1).drop_last() =~= start.tracks.take(seen));
                assert(self.tracks@[idx as int] == start.tracks[seen]);
            }
            if let TrackState::Failed { .. } = &self.tracks[idx].state {
                let _gone = self.tracks.remove(idx);
                assert(self.tracks@ =~= before + start.tracks.skip(seen + 1));
            } else {
                idx = idx + 1;
                assert(self.tracks@ =~= before.push(start.tracks[seen]) + start.tracks.skip(
                    seen + 1,
                ));
            }
            proof {
                seen = seen + 1;
            }
        }
        assert(seen == start.tracks.len());
        assert(start.tracks.take(seen) =~= start.tracks);
        assert(self.tracks@ =~= start.tracks.filter(kept));
    }

    /// Sets the volume; a song that is playing gets it at once.
    pub fn set_volume(&mut self, new_volume: u32) -> (r: Vec<Effect>)
        ensures
            final(self)@ == (QueueModel { volume: new_volume, ..old(self)@ }),
            r@ == if old(self)@.currently_playing is Some {
                seq![Effect::SetAudioVolume(new_volume)]
            } else {
                Seq::empty()
            },
    {
        self.volume = new_volume;
        let mut effects: Vec<Effect> = Vec::new();
        if self.currently_playing.is_some() {
            effects.push(Effect::SetAudioVolume(new_volume));
        }
        effects
    }

    /// Whether the first track can be played.
    pub fn can_pop(&self) -> (r: bool)
        ensures
            r == self@.head_ready(),
    {
        if self.tracks.len() > 0 {
            if let TrackState::Ready { .. } = &self.tracks[0].state {
                return true;
            }
        }
        false
    }

    /// Adds a track at the end: ready if it is on disk already, otherwise to be downloaded.
    pub fn push_track(&mut self, source: TrackSource, cached: bool) -> (r: Vec<Effect>)
        requires
            old(self)@.wf(),
            old(self)@.next_ticket < u64::MAX,
        ensures
            is_added(old(self)@, source, cached, final(self)@, r@),
            final(self)@.wf(),
    {
        let ticket = self.next_ticket;
        let mut effects: Vec<Effect> = Vec::new();
        if cached {
            let path = saved_path(&source);
            self.tracks.push(
                Track { ticket, state: TrackState::Ready { source, path }, held: false },
            );
            effects.push(Effect::Notify(QueueWorkerEvent::SongFinishedDownloading));
        } else {
            self.tracks.push(Track { ticket, state: TrackState::Queueed(source), held: true });
            effects.push(Effect::Download { ticket });
        }
        self.next_ticket = ticket + 1;
        assert(self@.tracks.drop_last() =~= old(self)@.tracks);
        effects
    }

    /// Adds the track at an address, if tracks can be taken from there. `embed_info` is the
    /// answer to what `track_lookup` asks for, and `cached` says whether the track is on
    /// disk already.
    pub fn add_track(&mut self, url: TrackUrl, embed_info: Option<EmbedInfo>, cached: bool) -> (r:
        Result<Vec<Effect>, StringError>)
        requires
            old(self)@.wf(),
            old(self)@.next_ticket < u64::MAX,
        ensures
            match r {
                Ok(effects) => {
                    &&& track_refusal(url) is None
                    &&& is_added(
                        old(self)@,
                        TrackSource::at(url, url.host->0@, embed_info),
                        cached,
                        final(self)@,
                        effects@,
                    )
                },
                Err(e) => track_refusal(url) == Some(e.0@) && final(self)@ == old(self)@,
            },
            final(self)@.wf(),
            url.host matches Some(host) && is_ascii_chars(host@) ==> lowercase(url.host->0@)
                == url.host->0@.map_values(|c: char| ascii_lower(c)),
    {
        match check_track(&url) {
            Ok(()) => {
                let source = TrackSource::from_url(url, embed_info);
                Ok(self.push_track(source, cached))
            },
            Err(e) => Err(e),
        }
    }

    /// Adds the track at an address as `add_track` does, and tells the worker of it.
    pub fn enqueue(&mut self, url: TrackUrl, embed_info: Option<EmbedInfo>, cached: bool) -> (r:
        Result<Vec<Effect>, StringError>)
        requires
            old(self)@.wf(),
            old(self)@.next_ticket < u64::MAX,
        ensures
            match r {
                Ok(effects) => {
                    &&& track_refusal(url) is None
                    &&& effects@.len() > 0
                    &&& effects@.last() == Effect::Notify(QueueWorkerEvent::StateUpdate)
                    &&& is_added(
                        old(self)@,
                        TrackSource::at(url, url.host->0@, embed_info),
                        cached,
                        final(self)@,
                        effects@.drop_last(),
                    )
                },
                Err(e) => track_refusal(url) == Some(e.0@) && final(self)@ == old(self)@,
            },
            final(self)@.wf(),
            url.host matches Some(host) && is_ascii_chars(host@) ==> lowercase(url.host->0@)
                == url.host->0@.map_values(|c: char| ascii_lower(c)),
    {
        match self.add_track(url, embed_info, cached) {
            Ok(mut effects) => {
                let ghost added = effects@;
                effects.push(Effect::Notify(QueueWorkerEvent::StateUpdate));
                assert(effects@.drop_last() =~= added);
                Ok(effects)
            },
            Err(e) => Err(e),
        }
    }

    /// Whether there is a ticket left for another track.
    pub fn has_ticket(&self) -> (r: bool)
        ensures
            r == (self@.next_ticket < u64::MAX),
    {
        self.next_ticket < u64::MAX
    }

    /// Pauses the queue and the song that is playing.
    pub fn pause(&mut self) -> (r: Vec<Effect>)
        ensures
            final(self)@ == (QueueModel { paused: true, ..old(self)@ }),
            r@ == if old(self)@.currently_playing is Some {
                seq![Effect::PauseAudio, Effect::Notify(QueueWorkerEvent::StateUpdate)]
            } else {
                seq![Effect::Notify(QueueWorkerEvent::StateUpdate)]
            },
    {
        self.paused = true;
        let mut effects: Vec<Effect> = Vec::new();
        if self.currently_playing.is_some() {
            effects.push(Effect::PauseAudio);
        }
        effects.push(Effect::Notify(QueueWorkerEvent::StateUpdate));
        effects
    }

    /// Resumes the queue and the song that was playing.
    pub fn resume(&mut self) -> (r: Vec<Effect>)
        ensures
            final(self)@ == (QueueModel { paused: false, ..old(self)@ }),
            r@ == if old(self)@.currently_playing is Some {
                seq![Effect::PlayAudio, Effect::Notify(QueueWorkerEvent::StateUpdate)]
            } else {
                seq![Effect::Notify(QueueWorkerEvent::StateUpdate)]
            },
    {
        self.paused = false;
        let mut effects: Vec<Effect> = Vec::new();
        if self.currently_playing.is_some() {
            effects.push(Effect::PlayAudio);
        }
        effects.push(Effect::Notify(QueueWorkerEvent::StateUpdate));
        effects
    }

    /// Takes up playing: resumes a song that was playing; otherwise, if the first track is
    /// ready, moves on to that track; otherwise, does nothing. A ready track that cannot be
    /// opened yet, for want of a channel or because its download still holds it, stays where
    /// it is, and the queue is no longer paused.
    pub fn start(&mut self) -> (r: Vec<Effect>)
        requires
            old(self)@.wf(),
        ensures
            is_started(old(self)@, final(self)@, r@),
            final(self)@.wf(),
    {
        if self.currently_playing.is_some() {
            self.resume()
        } else if !self.can_pop() {
            Vec::new()
        } else if self.connected_channel.is_some() && !self.tracks[0].held {
            self.paused = false;
            self.skip()
        } else {
            self.resume()
        }
    }

    /// Takes the first track off the list if it can be played. A track that its download
    /// still holds is lost thereby.
    pub fn get_next_track(&mut self) -> (r: Option<TrackState>)
        requires
            old(self)@.wf(),
        ensures
            final(self)@ == (QueueModel {
                tracks: if old(self)@.head_ready() {
                    old(self)@.tracks.drop_first()
                } else {
                    old(self)@.tracks
                },
                ..old(self)@
            }),
            final(self)@.wf(),
            r == if old(self)@.head_ready() && !old(self)@.tracks[0].held {
                Some(old(self)@.tracks[0].state)
            } else {
                None
            },
            r matches Some(state) ==> state is Ready,
    {
        if self.can_pop() {
            let track = self.tracks.remove(0);
            assert(self@.tracks =~= old(self)@.tracks.drop_first());
            if track.held {
                None
            } else {
                Some(track.state)
            }
        } else {
            None
        }
    }

    /// Moves on to the next song: stops the current one, takes the first track off the list
    /// if it can be played, and asks for it to be opened if there is a channel to play it in.
    pub fn next_song(&mut self) -> (r: Vec<Effect>)
        requires
            old(self)@.wf(),
        ensures
            final(self)@ == old(self)@.moved_on(),
            final(self)@.wf(),
            r@ == old(self)@.moving_on(),
    {
        let mut effects: Vec<Effect> = Vec::new();
        if self.currently_playing.is_some() {
            self.currently_playing = None;
            effects.push(Effect::PauseAudio);
        }
        if let Some(TrackState::Ready { source, path }) = self.get_next_track() {
            if self.connected_channel.is_some() {
                effects.push(Effect::OpenAudio { source, path });
            }
        }
        assert(effects@ =~= old(self)@.moving_on());
        effects
    }

    /// Makes an opened track the current song.
    pub fn start_song(&mut self, source: TrackSource) -> (r: Vec<Effect>)
        ensures
            final(self)@ == (QueueModel { currently_playing: Some(source), ..old(self)@ }),
            r@ == seq![Effect::StartAudio { volume: old(self)@.volume }],
    {
        self.currently_playing = Some(source);
        let mut effects: Vec<Effect> = Vec::new();
        effects.push(Effect::StartAudio { volume: self.volume });
        effects
    }

    /// Skips the current song.
    pub fn skip(&mut self) -> (r: Vec<Effect>)
        requires
            old(self)@.wf(),
        ensures
            final(self)@ == old(self)@.moved_on(),
            final(self)@.wf(),
            r@ == old(self)@.moving_on().push(Effect::Notify(QueueWorkerEvent::StateUpdate)),
    {
        let mut effects = self.next_song();
        effects.push(Effect::Notify(QueueWorkerEvent::StateUpdate));
        effects
    }

    /// Notes the channel that the bot has joined, and moves on to the next song if the first
    /// track can be played.
    pub fn join(&mut self, channel_id: u64) -> (r: Vec<Effect>)
        requires
            old(self)@.wf(),
        ensures
            ({
                let joined = QueueModel { connected_channel: Some(channel_id), ..old(self)@ };
                if old(self)@.head_ready() {
                    &&& final(self)@ == joined.moved_on()
                    &&& r@ == joined.moving_on().push(
                        Effect::Notify(QueueWorkerEvent::StateUpdate),
                    )
                } else {
                    &&& final(self)@ == joined
                    &&& r@ == Seq::<Effect>::empty()
                }
            }),
            final(self)@.wf(),
    {
        self.connect(channel_id);
        if self.can_pop() {
            self.skip()
        } else {
            Vec::new()
        }
    }

    /// Notes the channel that the bot has joined.
    pub fn connect(&mut self, channel_id: u64)
        ensures
            final(self)@ == (QueueModel { connected_channel: Some(channel_id), ..old(self)@ }),
    {
        self.connected_channel = Some(channel_id);
    }

    /// Notes that the bot has left its channel.
    pub fn leave(&mut self)
        ensures
            final(self)@ == (QueueModel { connected_channel: None, ..old(self)@ }),
    {
        self.connected_channel = None;
    }

    /// Whether the bot is in a channel.
    pub fn is_connected(&self) -> (r: bool)
        ensures
            r == (self@.connected_channel is Some),
    {
        self.connected_channel.is_some()
    }

    /// Removes the track with the given number; tracks are numbered from one.
    pub fn remove(&mut self, remove_idx: usize) -> (r: Removal)
        requires
            old(self)@.wf(),
        ensures
            ({
                let tracks = old(self)@.tracks;
                if tracks.len() == 0 {
                    r is Nothing && final(self)@ == old(self)@
                } else if 1 <= remove_idx <= tracks.len() {
                    &&& r matches Removal::Removed(effects)
                    &&& effects@ == seq![Effect::Notify(QueueWorkerEvent::StateUpdate)]
                    &&& final(self)@ == QueueModel {
                        tracks: tracks.remove(remove_idx - 1),
                        ..old(self)@
                    }
                } else {
                    &&& r matches Removal::Invalid(text)
                    &&& text@ == "Invalid index, should be between 1 and "@ + decimal(tracks.len())
                    &&& final(self)@ == old(self)@
                }
            }),
            final(self)@.wf(),
    {
        if self.tracks.len() == 0 {
            Removal::Nothing
        } else if 1 <= remove_idx && remove_idx <= self.tracks.len() {
            let _gone = self.tracks.remove(remove_idx - 1);
            assert(self@.tracks =~= old(self)@.tracks.remove(remove_idx - 1));
            let mut effects: Vec<Effect> = Vec::new();
            effects.push(Effect::Notify(QueueWorkerEvent::StateUpdate));
            Removal::Removed(effects)
        } else {
            let mut text = "Invalid index, should be between 1 and ".to_owned();
            push_decimal(&mut text, self.tracks.len() as u64);
            Removal::Invalid(text)
        }
    }

    /// Whether an event makes the queue move on to its next song.
    pub fn moves_on(&self, event: QueueWorkerEvent) -> (r: bool)
        ensures
            r == moves_on(self@, event),
    {
        match event {
            QueueWorkerEvent::SongFinished => true,
            QueueWorkerEvent::SongFinishedDownloading => !self.currently_playing.is_some()
                && self.connected_channel.is_some() && !self.paused,
            QueueWorkerEvent::StateUpdate => false,
        }
    }

    /// What the worker does to move on to the next song: tracks in the state `Failed` are
    /// cleared first.
    pub fn advance(&mut self) -> (r: Vec<Effect>)
        requires
            old(self)@.wf(),
        ensures
            final(self)@ == old(self)@.cleared().moved_on(),
            final(self)@.wf(),
            r@ == old(self)@.cleared().moving_on().push(
                Effect::Notify(QueueWorkerEvent::StateUpdate),
            ),
    {
        self.clear_failed_tracks();
        self.skip()
    }

    /// What the worker does when it is told of an event.
    pub fn handle_event(&mut self, event: QueueWorkerEvent) -> (r: Vec<Effect>)
        requires
            old(self)@.wf(),
        ensures
            if moves_on(old(self)@, event) {
                &&& final(self)@ == old(self)@.cleared().moved_on()
                &&& r@ == old(self)@.cleared().moving_on().push(
                    Effect::Notify(QueueWorkerEvent::StateUpdate),
                )
            } else {
                &&& final(self)@ == old(self)@
                &&& r@ == Seq::<Effect>::empty()
            },
            final(self)@.wf(),
    {
        if self.moves_on(event) {
            self.advance()
        } else {
            Vec::new()
        }
    }

    /// The message that shows the queue, and what it should show now.
    pub fn message_update(&self) -> (r: Option<(LastQueueMessage, MessageParams)>)
        ensures
            match r {
                Some((last, params)) => {
                    &&& self@.last_queue_message == Some(last)
                    &&& params.message matches Some(text)
                    &&& text@ == queue_text(self@)
                    &&& params.title is None
                    &&& params.color is None
                    &&& params.fields is None
                },
                None => self@.last_queue_message is None,
            },
    {
        match self.last_queue_message {
            Some(last) => Some((last, MessageParams::text(self.to_string()))),
            None => None,
        }
    }

    /// Notes the message that shows the queue.
    pub fn set_last_queue_message(&mut self, message: LastQueueMessage)
        ensures
            final(self)@ == (QueueModel { last_queue_message: Some(message), ..old(self)@ }),
    {
        self.last_queue_message = Some(message);
    }

    /// Puts the track with the given ticket in another state, if it is still waiting.
    pub fn set_state(&mut self, ticket: u64, state: TrackState)
        requires
            old(self)@.wf(),
        ensures
            final(self)@ == (QueueModel {
                tracks: with_state(old(self)@.tracks, ticket, state),
                ..old(self)@
            }),
            final(self)@.wf(),
    {
        let found = self.position(ticket);
        match found {
            Some(i) => {
                self.tracks[i].state = state;
            },
            None => {},
        }
        assert(self@.tracks =~= with_state(old(self)@.tracks, ticket, state));
    }

    /// Notes that the download of the track with the given ticket no longer holds it.
    pub fn release(&mut self, ticket: u64)
        requires
            old(self)@.wf(),
        ensures
            final(self)@ == (QueueModel {
                tracks: with_release(old(self)@.tracks, ticket),
                ..old(self)@
            }),
            final(self)@.wf(),
    {
        let found = self.position(ticket);
        match found {
            Some(i) => {
                self.tracks[i].held = false;
            },
            None => {},
        }
        assert(self@.tracks =~= with_release(old(self)@.tracks, ticket));
    }

    fn position(&self, ticket: u64) -> (r: Option<usize>)
        requires
            self@.wf(),
        ensures
            match r {
                Some(i) => i < self@.tracks.len() && self@.tracks[i as int].ticket == ticket,
                None => forall|i: int|
                    0 <= i < self@.tracks.len() ==> (#[trigger] self@.tracks[i]).ticket != ticket,
            },
    {
        let mut i: usize = 0;
        while i < self.tracks.len()
            invariant
                i <= self.tracks@.len(),
                self.tracks@ == self@.tracks,
                forall|j: int| 0 <= j < i ==> (#[trigger] self@.tracks[j]).ticket != ticket,
            decreases self.tracks@.len() - i,
        {
            if self.tracks[i].ticket == ticket {
                return Some(i);
            }
            i = i + 1;
        }
        None
    }

    /// The state of the track with the given ticket, if it is still waiting.
    pub fn state(&self, ticket: u64) -> (r: Option<TrackState>)
        requires
            self@.wf(),
        ensures
            match r {
                Some(state) => exists|i: int|
                    0 <= i < self@.tracks.len() && (#[trigger] self@.tracks[i]).ticket == ticket
                        && self@.tracks[i].state == state,
                None => forall|i: int|
                    0 <= i < self@.tracks.len() ==> (#[trigger] self@.tracks[i]).ticket != ticket,
            },
    {
        match self.position(ticket) {
            Some(i) => Some(self.tracks[i].state.clone()),
            None => None,
        }
    }

    /// The volume.
    pub fn volume(&self) -> (r: u32)
        ensures
            r == self@.volume,
    {
        self.volume
    }

    /// The user that the bot is.
    pub fn bot_id(&self) -> (r: u64)
        ensures
            r == self@.bot_id,
    {
        self.bot_id
    }

    /// How many tracks wait.
    pub fn len(&self) -> (r: usize)
        ensures
            r == self@.tracks.len(),
    {
        self.tracks.len()
    }
}

/// How removing a track by its number ends.
#[derive(Debug)]
pub enum Removal {
    /// There was no track to remove.
    Nothing,
    /// The track is gone.
    Removed(Vec<Effect>),
    /// No track has that number; the text says which numbers there are.
    Invalid(String),
}

/// Whether adding a track from `source` turns the queue `before` into `after`, with the given
/// effects: the track stands at the end under a new ticket. One that is on disk is ready and
/// the worker is told; any other one is queued, held, and downloaded.
pub open spec fn is_added(
    before: QueueModel,
    source: TrackSource,
    cached: bool,
    after: QueueModel,
    effects: Seq<Effect>,
) -> bool {
    &&& after == QueueModel {
        tracks: before.tracks.push(after.tracks.last()),
        next_ticket: (before.next_ticket + 1) as u64,
        ..before
    }
    &&& after.tracks.last().ticket == before.next_ticket
    &&& after.tracks.last().held == !cached
    &&& if cached {
        &&& after.tracks.last().state matches TrackState::Ready { source: s, path }
        &&& s == source
        &&& path@ == track_path(source)
        &&& effects == seq![Effect::Notify(QueueWorkerEvent::SongFinishedDownloading)]
    } else {
        &&& after.tracks.last().state == TrackState::Queueed(source)
        &&& effects == seq![Effect::Download { ticket: before.next_ticket }]
    }
}

/// Whether starting turns `before` into `after` with the given effects: a song that was playing
/// is resumed; without one, a first track that is ready is opened if it can be, and nothing
/// happens if there is no such track.
pub open spec fn is_started(before: QueueModel, after: QueueModel, effects: Seq<Effect>) -> bool {
    let on = QueueModel { paused: false, ..before };
    if before.currently_playing is Some {
        &&& after == on
        &&& effects == seq![Effect::PlayAudio, Effect::Notify(QueueWorkerEvent::StateUpdate)]
    } else if !before.head_ready() {
        &&& after == before
        &&& effects == Seq::<Effect>::empty()
    } else if before.connected_channel is Some && !before.tracks[0].held {
        &&& after == on.moved_on()
        &&& effects == on.moving_on().push(Effect::Notify(QueueWorkerEvent::StateUpdate))
    } else {
        &&& after == on
        &&& effects == seq![Effect::Notify(QueueWorkerEvent::StateUpdate)]
    }
}

/// Clearing takes the tracks in the state `Failed` and nothing else: no such track is left,
/// every other one is kept, among them those in the state `SimpleFailed`, none is made up, and
/// those that are left stand in their old order.
pub proof fn clearing_takes_failed_tracks_only(q: QueueModel)
    requires
        q.wf(),
    ensures
        forall|i: int|
            0 <= i < q.cleared().tracks.len() ==> !((#[trigger] q.cleared().tracks[i]).state
                is Failed),
        forall|i: int|
            0 <= i < q.tracks.len() && !((#[trigger] q.tracks[i]).state is Failed)
                ==> q.cleared().tracks.contains(q.tracks[i]),
        forall|t: Track| #[trigger] q.cleared().tracks.contains(t) ==> q.tracks.contains(t),
        q.cleared().wf(),
{
    let kept = |t: Track| !(t.state is Failed);
    assert forall|i: int| 0 <= i < q.cleared().tracks.len() implies !((
    #[trigger] q.cleared().tracks[i]).state is Failed) by {
        q.tracks.lemma_filter_pred(kept, i);
    }
    assert forall|i: int|
        0 <= i < q.tracks.len() && !((#[trigger] q.tracks[i]).state is Failed) implies
        q.cleared().tracks.contains(q.tracks[i]) by {
        q.tracks.lemma_filter_contains(kept, i);
    }
    assert forall|t: Track| #[trigger] q.cleared().tracks.contains(t) implies
        q.tracks.contains(t) by {
        q.tracks.lemma_filter_contains_rev(kept, t);
    }
    lemma_cleared_wf(q);
}

proof fn lemma_cleared_wf(q: QueueModel)
    requires
        q.wf(),
    ensures
        q.cleared().wf(),
    decreases q.tracks.len(),
{
    reveal(Seq::filter);
    if q.tracks.len() > 0 {
        let kept = |t: Track| !(t.state is Failed);
        let front = QueueModel { tracks: q.tracks.drop_last(), ..q };
        lemma_cleared_wf(front);
        assert forall|i: int| 0 <= i < front.cleared().tracks.len() implies (
        #[trigger] front.cleared().tracks[i]).ticket < q.tracks.last().ticket by {
            let t = front.cleared().tracks[i];
            front.tracks.lemma_filter_contains_rev(kept, t);
            let j = choose|j: int| 0 <= j < front.tracks.len() && front.tracks[j] == t;
            assert(q.tracks[j].ticket < q.tracks[q.tracks.len() - 1].ticket);
        }
    }
}

/// Clearing twice is clearing once.
pub proof fn clearing_is_idempotent(q: QueueModel)
    ensures
        q.cleared().cleared() == q.cleared(),
{
    let kept = |t: Track| !(t.state is Failed);
    assert forall|i: int| 0 <= i < q.cleared().tracks.len() implies kept(
        #[trigger] q.cleared().tracks[i],
    ) by {
        q.tracks.lemma_filter_pred(kept, i);
    }
    lemma_all_kept(q.cleared().tracks);
}

proof fn lemma_all_kept(tracks: Seq<Track>)
    requires
        forall|i: int| 0 <= i < tracks.len() ==> !((#[trigger] tracks[i]).state is Failed),
    ensures
        tracks.filter(|t: Track| !(t.state is Failed)) == tracks,
    decreases tracks.len(),
{
    reveal(Seq::filter);
    if tracks.len() > 0 {
        lemma_all_kept(tracks.drop_last());
        assert(tracks.drop_last().push(tracks.last()) =~= tracks);
    }
}

/// Starting plays a ready song when nothing was playing: in a channel, with a first track that
/// can be played and that its download no longer holds, that track is opened and, once it is
/// started, is the current song of a queue that is not paused and no longer lists it.
pub proof fn start_plays_ready_song(before: QueueModel, after: QueueModel, effects: Seq<Effect>)
    requires
        before.currently_playing is None,
        before.connected_channel is Some,
        before.head_ready(),
        !before.tracks[0].held,
        is_started(before, after, effects),
    ensures
        effects.len() == 2,
        effects[0] matches Effect::OpenAudio { source, path } && before.tracks[0].state == (
        TrackState::Ready { source, path }) && (QueueModel {
            currently_playing: Some(source),
            ..after
        }) == (QueueModel {
            currently_playing: Some(before.tracks[0].state.origin()),
            tracks: before.tracks.drop_first(),
            paused: false,
            ..before
        }),
        effects[1] == Effect::Notify(QueueWorkerEvent::StateUpdate),
{
}

/// Starting loses no track: the list stays as it is unless its first track is opened, and then
/// only that track leaves it.
pub proof fn start_loses_no_track(before: QueueModel, after: QueueModel, effects: Seq<Effect>)
    requires
        is_started(before, after, effects),
    ensures
        after.tracks == before.tracks || {
            &&& before.tracks.len() > 0
            &&& after.tracks == before.tracks.drop_first()
            &&& effects.len() > 0
            &&& effects[0] matches Effect::OpenAudio { source, path }
            &&& before.tracks[0].state == (TrackState::Ready { source, path })
        },
{
}

/// Resuming undoes pausing: a queue that was not paused is as it was before.
pub proof fn resume_undoes_pause(q: QueueModel)
    requires
        !q.paused,
    ensures
        (QueueModel { paused: false, ..QueueModel { paused: true, ..q } }) == q,
{
}

/// Nothing overtakes the first track: while it cannot be played, moving on leaves all tracks
/// where they are and opens none of them.
pub proof fn first_track_is_not_overtaken(q: QueueModel)
    requires
        !q.head_ready(),
    ensures
        q.moved_on().tracks == q.tracks,
        forall|i: int| 0 <= i < q.moving_on().len() ==> #[trigger] q.moving_on()[i] is PauseAudio,
{
}

/// Tracks leave in the order in which they came: moving on takes at most the first one, and
/// what is opened is that one.
pub proof fn tracks_leave_in_order(q: QueueModel, i: int)
    requires
        0 <= i < q.moving_on().len(),
    ensures
        q.moved_on().tracks == q.tracks || q.moved_on().tracks == q.tracks.drop_first(),
        q.moving_on()[i] matches Effect::OpenAudio { source, path } ==> q.tracks.len() > 0
            && q.tracks[0].state == (TrackState::Ready { source, path }),
{
}

/// Moving on keeps the order of the queue.
pub proof fn moving_on_keeps_order(q: QueueModel)
    requires
        q.wf(),
    ensures
        q.moved_on().wf(),
{
}

/// An available song becomes the current one: if the first track can be played, is not held,
/// and the bot is in a channel, moving on opens it last of all, and starting what was opened
/// makes it the current song of a queue that no longer lists it.
pub proof fn available_song_becomes_current(q: QueueModel)
    requires
        q.head_ready(),
        !q.tracks[0].held,
        q.connected_channel is Some,
    ensures
        q.moving_on().len() > 0,
        q.moving_on().last() matches Effect::OpenAudio { source, path } && q.tracks[0].state == (
        TrackState::Ready { source, path }),
        (QueueModel { currently_playing: Some(q.moving_on().last()->source), ..q.moved_on() })
            == (QueueModel {
            currently_playing: Some(q.tracks[0].state.origin()),
            tracks: q.tracks.drop_first(),
            ..q
        }),
{
}

/// Outside a channel nothing is opened: a track that could be played leaves the queue unheard.
pub proof fn disconnected_queue_opens_nothing(q: QueueModel)
    requires
        q.connected_channel is None,
    ensures
        forall|i: int| 0 <= i < q.moving_on().len() ==> #[trigger] q.moving_on()[i] is PauseAudio,
        q.head_ready() ==> q.moved_on().tracks == q.tracks.drop_first(),
{
}

/// A track that is on disk plays at once when it is added to an idle queue: the event that
/// adding it sends makes the queue move on, and that opens the track.
pub proof fn cached_track_plays_at_once(
    before: QueueModel,
    source: TrackSource,
    after: QueueModel,
    effects: Seq<Effect>,
)
    requires
        is_added(before, source, true, after, effects),
        before.tracks.len() == 0,
        before.currently_playing is None,
        before.connected_channel is Some,
        !before.paused,
    ensures
        effects == seq![Effect::Notify(QueueWorkerEvent::SongFinishedDownloading)],
        moves_on(after, QueueWorkerEvent::SongFinishedDownloading),
        after.cleared() == after,
        after.moved_on().tracks.len() == 0,
        after.moving_on().len() == 1,
        after.moving_on()[0] matches Effect::OpenAudio { source: s, path } && s == source
            && path@ == track_path(source),
{
    lemma_all_kept(after.tracks);
}

/// The state of one track is no concern of the others: putting one in another state changes
/// no other track, and a ticket that is no longer in the queue changes nothing.
pub proof fn set_state_is_local(tracks: Seq<Track>, ticket: u64, state: TrackState, i: int)
    requires
        0 <= i < tracks.len(),
    ensures
        with_state(tracks, ticket, state).len() == tracks.len(),
        tracks[i].ticket != ticket ==> with_state(tracks, ticket, state)[i] == tracks[i],
        tracks[i].ticket == ticket ==> with_state(tracks, ticket, state)[i] == (Track {
            state,
            ..tracks[i]
        }),
        (forall|j: int| 0 <= j < tracks.len() ==> (#[trigger] tracks[j]).ticket != ticket)
            ==> with_state(tracks, ticket, state) == tracks,
{
    if forall|j: int| 0 <= j < tracks.len() ==> (#[trigger] tracks[j]).ticket != ticket {
        assert(with_state(tracks, ticket, state) =~= tracks);
    }
}

/// A pause holds back downloads, but not the end of a song: a paused queue moves on when a
/// song has ended, and on nothing else.
pub proof fn paused_queue_moves_on_at_song_end_only(q: QueueModel, event: QueueWorkerEvent)
    requires
        q.paused,
    ensures
        moves_on(q, event) <==> event == QueueWorkerEvent::SongFinished,
{
}

} // verus!
