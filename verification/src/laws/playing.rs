//! How a queue plays: moving on by itself, by commands, and by events.

use vstd::prelude::*;

use crate::laws::adding::same_but_tracks;
use crate::queue::{
    clearing_takes_failed_tracks_only, now_playing_task, Effect, Queue, QueueModel,
    QueueWorkerEvent, Track,
};
use crate::track::{TrackSource, TrackState};

verus! {

/// Whether the first track is ready, let go of by its download, and the bot in a channel to play
/// it in.
pub open spec fn could_play(q: QueueModel) -> bool {
    &&& q.tracks.len() > 0
    &&& q.tracks[0].state is Ready
    &&& !q.tracks[0].held
    &&& q.connected_channel is Some
}

/// Whether the first track is ready.
pub open spec fn first_is_ready(q: QueueModel) -> bool {
    q.tracks.len() > 0 && q.tracks[0].state is Ready
}

/// Whether an effect asks to open what a track has on disk.
pub open spec fn opens(effect: Effect, track: Track) -> bool {
    &&& effect matches Effect::OpenAudio { source, path }
    &&& track.state == (TrackState::Ready { source, path })
}

/// Moving on stops the current song, whatever waits behind it: afterwards nothing plays, and if
/// anything played, the first thing that is asked for is to pause it.
pub proof fn moving_on_stops_the_song(q: &mut Queue, effects: Vec<Effect>)
    requires
        old(q)@.wf(),
        call_ensures(Queue::next_song, (q,), effects) || call_ensures(Queue::skip, (q,), effects),
    ensures
        final(q)@.currently_playing is None,
        old(q)@.currently_playing is Some ==> effects@.len() > 0 && effects@[0] is PauseAudio,
        forall|i: int|
            0 <= i < effects@.len() && #[trigger] effects@[i] is PauseAudio ==> i == 0
                && old(q)@.currently_playing is Some,
        final(q)@.connected_channel == old(q)@.connected_channel,
        final(q)@.last_queue_message == old(q)@.last_queue_message,
        final(q)@.bot_id == old(q)@.bot_id,
        final(q)@.paused == old(q)@.paused,
        final(q)@.volume == old(q)@.volume,
        final(q)@.next_ticket == old(q)@.next_ticket,
{
}

/// Moving on takes a ready track off the head of the list, and that one only; tracks stay where
/// they are while the first of them is not ready.
pub proof fn moving_on_takes_the_ready_head(q: &mut Queue, effects: Vec<Effect>)
    requires
        old(q)@.wf(),
        call_ensures(Queue::next_song, (q,), effects) || call_ensures(Queue::skip, (q,), effects),
    ensures
        first_is_ready(old(q)@) ==> final(q)@.tracks == old(q)@.tracks.drop_first(),
        !first_is_ready(old(q)@) ==> final(q)@.tracks == old(q)@.tracks,
        final(q)@.wf(),
{
}

/// Moving on opens the first track exactly if it could play, behind the pause of the song before
/// it; nothing else is ever opened.
pub proof fn moving_on_opens_what_could_play(q: &mut Queue, effects: Vec<Effect>)
    requires
        old(q)@.wf(),
        call_ensures(Queue::next_song, (q,), effects),
    ensures
        ({
            let paused: int = if old(q)@.currently_playing is Some {
                1
            } else {
                0
            };
            if could_play(old(q)@) {
                effects@.len() == paused + 1 && opens(effects@[paused], old(q)@.tracks[0])
            } else {
                effects@.len() == paused
            }
        }),
{
}

/// Skipping is moving on to the next song and then telling the worker that the queue has changed.
pub proof fn skip_moves_on_and_tells(
    q: &mut Queue,
    effects: Vec<Effect>,
    other: &mut Queue,
    moved: Vec<Effect>,
)
    requires
        old(q)@.wf(),
        old(other)@ == old(q)@,
        call_ensures(Queue::skip, (q,), effects),
        call_ensures(Queue::next_song, (other,), moved),
    ensures
        final(q)@ == final(other)@,
        effects@ == moved@.push(Effect::Notify(QueueWorkerEvent::StateUpdate)),
{
}

/// The first track is handed out exactly if it is ready and let go of; it leaves the list
/// whenever it is ready, and nothing else changes.
pub proof fn next_track_is_the_ready_head(q: &mut Queue, r: Option<TrackState>)
    requires
        old(q)@.wf(),
        call_ensures(Queue::get_next_track, (q,), r),
    ensures
        r is Some <==> first_is_ready(old(q)@) && !old(q)@.tracks[0].held,
        r matches Some(state) ==> state == old(q)@.tracks[0].state,
        first_is_ready(old(q)@) ==> final(q)@.tracks == old(q)@.tracks.drop_first(),
        !first_is_ready(old(q)@) ==> final(q)@.tracks == old(q)@.tracks,
        same_but_tracks(old(q)@, final(q)@),
        final(q)@.next_ticket == old(q)@.next_ticket,
{
}

/// A track can be taken exactly if there is a first one and it is ready, whatever else is in the
/// queue.
pub proof fn can_pop_tells_of_the_head(q: Queue, r: bool)
    requires
        call_ensures(Queue::can_pop, (&q,), r),
    ensures
        r <==> first_is_ready(q@),
{
}

/// The end of a song always makes the queue move on: paused or not, whatever plays and whatever
/// waits.
pub proof fn song_end_moves_on(q: Queue, r: bool)
    requires
        call_ensures(Queue::moves_on, (&q, QueueWorkerEvent::SongFinished), r),
    ensures
        r,
{
}

/// The end of a download makes the queue move on exactly if the bot is in a channel, nothing
/// plays, and the queue is not paused; what waits does not matter.
pub proof fn download_end_moves_on_if_idle(q: Queue, r: bool)
    requires
        call_ensures(Queue::moves_on, (&q, QueueWorkerEvent::SongFinishedDownloading), r),
    ensures
        r <==> q@.connected_channel is Some && q@.currently_playing is None && !q@.paused,
{
}

/// Whether the worker moves on when it is told of an event.
pub open spec fn worker_acts(q: QueueModel, event: QueueWorkerEvent) -> bool {
    ||| event == QueueWorkerEvent::SongFinished
    ||| event == QueueWorkerEvent::SongFinishedDownloading && q.connected_channel is Some
        && q.currently_playing is None && !q.paused
}

/// An event that does not make the queue move on changes nothing and asks for nothing; news of a
/// changed queue is such an event in every state.
pub proof fn other_events_change_nothing(
    q: &mut Queue,
    event: QueueWorkerEvent,
    effects: Vec<Effect>,
)
    requires
        old(q)@.wf(),
        !worker_acts(old(q)@, event),
        call_ensures(Queue::handle_event, (q, event), effects),
    ensures
        final(q)@ == old(q)@,
        effects@.len() == 0,
{
}

/// When the worker moves on, it does what clearing the failed tracks and then skipping does.
pub proof fn worker_clears_and_skips(
    q: &mut Queue,
    event: QueueWorkerEvent,
    effects: Vec<Effect>,
    cleared: &mut Queue,
    skipped: &mut Queue,
    moved: Vec<Effect>,
)
    requires
        old(q)@.wf(),
        worker_acts(old(q)@, event),
        call_ensures(Queue::handle_event, (q, event), effects) || call_ensures(
            Queue::advance,
            (q,),
            effects,
        ),
        old(cleared)@ == old(q)@,
        call_ensures(Queue::clear_failed_tracks, (cleared,), ()),
        old(skipped)@ == final(cleared)@,
        call_ensures(Queue::skip, (skipped,), moved),
    ensures
        final(q)@ == final(skipped)@,
        effects@ == moved@,
{
}

/// Clearing the failed tracks takes those in the state `Failed` and no others, keeps the rest in
/// their order, and changes nothing else.
pub proof fn only_failed_tracks_are_cleared(q: &mut Queue)
    requires
        old(q)@.wf(),
        call_ensures(Queue::clear_failed_tracks, (q,), ()),
    ensures
        same_but_tracks(old(q)@, final(q)@),
        final(q)@.next_ticket == old(q)@.next_ticket,
        forall|t: Track| #[trigger]
            final(q)@.tracks.contains(t) <==> old(q)@.tracks.contains(t) && !(t.state is Failed),
        forall|i: int, j: int|
            0 <= i < j < final(q)@.tracks.len() ==> (#[trigger] final(q)@.tracks[i]).ticket < (
            #[trigger] final(q)@.tracks[j]).ticket,
{
    let all = old(q)@.tracks;
    let kept = |t: Track| !(t.state is Failed);
    assert forall|t: Track| #[trigger] final(q)@.tracks.contains(t) implies all.contains(t) && !(
    t.state is Failed) by {
        all.lemma_filter_contains_rev(kept, t);
        let i = choose|i: int| 0 <= i < final(q)@.tracks.len() && final(q)@.tracks[i] == t;
        all.lemma_filter_pred(kept, i);
    }
    assert forall|t: Track| all.contains(t) && !(t.state is Failed) implies
        #[trigger] final(q)@.tracks.contains(t) by {
        let i = choose|i: int| 0 <= i < all.len() && all[i] == t;
        all.lemma_filter_contains(kept, i);
    }
}

/// Whether the track at `k` is the first that has not failed.
pub open spec fn leads(q: QueueModel, k: int) -> bool {
    &&& 0 <= k < q.tracks.len()
    &&& !(q.tracks[k].state is Failed)
    &&& forall|i: int| 0 <= i < k ==> (#[trigger] q.tracks[i]).state is Failed
}

proof fn lemma_lead_is_kept(q: QueueModel, k: int)
    requires
        leads(q, k),
    ensures
        q.cleared().tracks.len() > 0,
        q.cleared().tracks[0] == q.tracks[k],
{
    let kept = |t: Track| !(t.state is Failed);
    let front = q.tracks.take(k);
    assert(front.filter(kept).len() == 0) by {
        if front.filter(kept).len() > 0 {
            front.lemma_filter_pred(kept, 0);
            front.lemma_filter_contains_rev(kept, front.filter(kept)[0]);
        }
    }
    let lead = seq![q.tracks[k]];
    let rest = q.tracks.skip(k + 1);
    assert(q.tracks =~= front + (lead + rest));
    Seq::filter_distributes_over_add(front, lead + rest, kept);
    Seq::filter_distributes_over_add(lead, rest, kept);
    reveal(Seq::filter);
    assert(lead.drop_last() =~= Seq::empty());
    assert(lead.filter(kept) =~= lead);
    assert(q.cleared().tracks =~= lead + rest.filter(kept));
}

/// When a song ends, the next one plays: the first track that has not failed, if it is ready and
/// let go of and the bot is in a channel, is opened behind the pause of the old song, and leaves
/// the list.
pub proof fn next_song_plays_when_one_ends(
    q: &mut Queue,
    event: QueueWorkerEvent,
    effects: Vec<Effect>,
    k: int,
)
    requires
        old(q)@.wf(),
        worker_acts(old(q)@, event),
        call_ensures(Queue::handle_event, (q, event), effects),
        old(q)@.connected_channel is Some,
        leads(old(q)@, k),
        old(q)@.tracks[k].state is Ready,
        !old(q)@.tracks[k].held,
    ensures
        ({
            let paused: int = if old(q)@.currently_playing is Some {
                1
            } else {
                0
            };
            &&& effects@.len() == paused + 2
            &&& old(q)@.currently_playing is Some ==> effects@[0] is PauseAudio
            &&& opens(effects@[paused], old(q)@.tracks[k])
            &&& effects@[paused + 1] == Effect::Notify(QueueWorkerEvent::StateUpdate)
        }),
        !final(q)@.tracks.contains(old(q)@.tracks[k]),
        forall|i: int|
            k < i < old(q)@.tracks.len() && !((#[trigger] old(q)@.tracks[i]).state is Failed)
                ==> final(q)@.tracks.contains(old(q)@.tracks[i]),
        final(q)@.currently_playing is None,
{
    let before = old(q)@;
    let kept = |t: Track| !(t.state is Failed);
    lemma_lead_is_kept(before, k);
    let left = before.cleared().tracks;
    clearing_takes_failed_tracks_only(before);
    assert forall|i: int| 0 <= i < final(q)@.tracks.len() implies #[trigger] final(q)@.tracks[i]
        != before.tracks[k] by {
        assert(final(q)@.tracks[i] == left[i + 1]);
        assert(left[0].ticket < left[i + 1].ticket);
    }
    assert forall|i: int|
        k < i < before.tracks.len() && !((#[trigger] before.tracks[i]).state is Failed) implies
        final(q)@.tracks.contains(before.tracks[i]) by {
        before.tracks.lemma_filter_contains(kept, i);
        let j = choose|j: int| 0 <= j < left.len() && left[j] == before.tracks[i];
        assert(before.tracks[k].ticket < before.tracks[i].ticket);
        assert(j > 0);
        assert(final(q)@.tracks[j - 1] == before.tracks[i]);
    }
}

/// A track that is not ready is waited for: while it is the first that has not failed, the end of
/// a song opens nothing, and it stays in the list.
pub proof fn unready_track_is_waited_for(
    q: &mut Queue,
    event: QueueWorkerEvent,
    effects: Vec<Effect>,
    k: int,
)
    requires
        old(q)@.wf(),
        worker_acts(old(q)@, event),
        call_ensures(Queue::handle_event, (q, event), effects),
        leads(old(q)@, k),
        !(old(q)@.tracks[k].state is Ready),
    ensures
        final(q)@.tracks.len() > 0,
        final(q)@.tracks[0] == old(q)@.tracks[k],
        final(q)@.currently_playing is None,
        old(q)@.currently_playing is Some ==> effects@ == seq![
            Effect::PauseAudio,
            Effect::Notify(QueueWorkerEvent::StateUpdate),
        ],
        old(q)@.currently_playing is None ==> effects@ == seq![
            Effect::Notify(QueueWorkerEvent::StateUpdate),
        ],
{
    lemma_lead_is_kept(old(q)@, k);
}

/// An opened track becomes the current song and is played at the volume of the queue; nothing
/// else changes.
pub proof fn started_song_is_current(q: &mut Queue, source: TrackSource, effects: Vec<Effect>)
    requires
        call_ensures(Queue::start_song, (q, source), effects),
    ensures
        final(q)@ == (QueueModel { currently_playing: Some(source), ..old(q)@ }),
        effects@ == seq![Effect::StartAudio { volume: old(q)@.volume }],
{
}

/// A song that has ended is reported as ended, and one that plays is not.
pub proof fn end_of_song_is_reported(finished: bool, r: Option<QueueWorkerEvent>)
    requires
        call_ensures(now_playing_task, (finished,), r),
    ensures
        finished ==> r == Some(QueueWorkerEvent::SongFinished),
        !finished ==> r is None,
{
}

/// Pausing marks the queue as paused and pauses a song if one plays; the worker is told, and
/// nothing else changes.
pub proof fn pause_pauses_the_song(q: &mut Queue, effects: Vec<Effect>)
    requires
        call_ensures(Queue::pause, (q,), effects),
    ensures
        final(q)@ == (QueueModel { paused: true, ..old(q)@ }),
        old(q)@.currently_playing is Some ==> effects@.len() == 2 && effects@[0] is PauseAudio,
        old(q)@.currently_playing is None ==> effects@.len() == 1,
        effects@.last() == Effect::Notify(QueueWorkerEvent::StateUpdate),
{
}

/// Resuming takes back a pause: a queue that was paused and is resumed is what it was before, no
/// longer paused, and the song that was paused plays again.
pub proof fn resume_takes_back_a_pause(
    q: &mut Queue,
    pausing: Vec<Effect>,
    later: &mut Queue,
    resuming: Vec<Effect>,
)
    requires
        call_ensures(Queue::pause, (q,), pausing),
        old(later)@ == final(q)@,
        call_ensures(Queue::resume, (later,), resuming),
    ensures
        final(later)@ == (QueueModel { paused: false, ..old(q)@ }),
        old(q)@.currently_playing is Some ==> {
            &&& resuming@.len() == 2
            &&& pausing@[0] is PauseAudio
            &&& resuming@[0] is PlayAudio
        },
        old(q)@.currently_playing is None ==> resuming@.len() == 1,
        resuming@.last() == Effect::Notify(QueueWorkerEvent::StateUpdate),
{
}

/// Starting resumes a song that was playing: it plays on, the queue is no longer paused, the
/// worker is told, and nothing else changes.
pub proof fn start_resumes_the_song(q: &mut Queue, effects: Vec<Effect>)
    requires
        old(q)@.wf(),
        old(q)@.currently_playing is Some,
        call_ensures(Queue::start, (q,), effects),
    ensures
        final(q)@ == (QueueModel { paused: false, ..old(q)@ }),
        effects@ == seq![Effect::PlayAudio, Effect::Notify(QueueWorkerEvent::StateUpdate)],
{
}

/// Starting opens the first track if nothing plays and the track could play; otherwise every
/// track stays, and if none is ready nothing happens at all.
pub proof fn start_opens_the_ready_head(q: &mut Queue, effects: Vec<Effect>)
    requires
        old(q)@.wf(),
        old(q)@.currently_playing is None,
        call_ensures(Queue::start, (q,), effects),
    ensures
        could_play(old(q)@) ==> {
            &&& effects@.len() == 2
            &&& opens(effects@[0], old(q)@.tracks[0])
            &&& effects@[1] == Effect::Notify(QueueWorkerEvent::StateUpdate)
            &&& final(q)@ == (QueueModel {
                paused: false,
                tracks: old(q)@.tracks.drop_first(),
                ..old(q)@
            })
        },
        !first_is_ready(old(q)@) ==> final(q)@ == old(q)@ && effects@.len() == 0,
        first_is_ready(old(q)@) && !could_play(old(q)@) ==> {
            &&& final(q)@ == (QueueModel { paused: false, ..old(q)@ })
            &&& effects@ == seq![Effect::Notify(QueueWorkerEvent::StateUpdate)]
        },
{
}

/// The volume that is set is the volume that is read and the one at which the next song starts; a
/// song that plays gets it at once, and nothing else changes.
pub proof fn volume_is_kept(
    q: &mut Queue,
    new_volume: u32,
    effects: Vec<Effect>,
    later: Queue,
    read: u32,
    starting: &mut Queue,
    source: TrackSource,
    started: Vec<Effect>,
)
    requires
        call_ensures(Queue::set_volume, (q, new_volume), effects),
        later@ == final(q)@,
        call_ensures(Queue::volume, (&later,), read),
        old(starting)@ == final(q)@,
        call_ensures(Queue::start_song, (starting, source), started),
    ensures
        read == new_volume,
        started@ == seq![Effect::StartAudio { volume: new_volume }],
        final(q)@ == (QueueModel { volume: new_volume, ..old(q)@ }),
        old(q)@.currently_playing is Some ==> effects@ == seq![Effect::SetAudioVolume(new_volume)],
        old(q)@.currently_playing is None ==> effects@.len() == 0,
{
}

/// Joining a channel notes it, and moves on if the first track is ready: that track is opened if
/// it is let go of, behind the pause of a song that plays.
pub proof fn join_plays_the_ready_head(q: &mut Queue, channel_id: u64, effects: Vec<Effect>)
    requires
        old(q)@.wf(),
        call_ensures(Queue::join, (q, channel_id), effects),
    ensures
        final(q)@.connected_channel == Some(channel_id),
        !first_is_ready(old(q)@) ==> {
            &&& final(q)@ == (QueueModel { connected_channel: Some(channel_id), ..old(q)@ })
            &&& effects@.len() == 0
        },
        first_is_ready(old(q)@) ==> {
            let paused: int = if old(q)@.currently_playing is Some {
                1
            } else {
                0
            };
            let opened: int = if old(q)@.tracks[0].held {
                0
            } else {
                1
            };
            &&& final(q)@ == (QueueModel {
                connected_channel: Some(channel_id),
                currently_playing: None,
                tracks: old(q)@.tracks.drop_first(),
                ..old(q)@
            })
            &&& effects@.len() == paused + opened + 1
            &&& paused == 1 ==> effects@[0] is PauseAudio
            &&& opened == 1 ==> opens(effects@[paused], old(q)@.tracks[0])
            &&& effects@.last() == Effect::Notify(QueueWorkerEvent::StateUpdate)
        },
{
}

/// The bot is in a channel from when it is noted until it leaves; both change nothing else.
pub proof fn channel_is_noted_and_left(
    q: &mut Queue,
    channel_id: u64,
    between: Queue,
    inside: bool,
    later: &mut Queue,
    after: Queue,
    outside: bool,
)
    requires
        call_ensures(Queue::connect, (q, channel_id), ()),
        between@ == final(q)@,
        call_ensures(Queue::is_connected, (&between,), inside),
        old(later)@ == final(q)@,
        call_ensures(Queue::leave, (later,), ()),
        after@ == final(later)@,
        call_ensures(Queue::is_connected, (&after,), outside),
    ensures
        inside,
        !outside,
        final(q)@ == (QueueModel { connected_channel: Some(channel_id), ..old(q)@ }),
        final(later)@ == (QueueModel { connected_channel: None, ..old(q)@ }),
{
}

} // verus!
