//! Adding tracks to a queue and taking them out again.

use vstd::prelude::*;
use vstd::string::*;

use crate::error::StringError;
use crate::queue::{Effect, Queue, QueueModel, QueueWorkerEvent, Removal};
use crate::text::{decimal, ends_with, lowercase};
use crate::track::{saved_path, EmbedInfo, TrackSource, TrackState, TrackUrl};

verus! {

/// Whether two queues are the same but for their tracks and tickets.
pub open spec fn same_but_tracks(a: QueueModel, b: QueueModel) -> bool {
    &&& a.currently_playing == b.currently_playing
    &&& a.connected_channel == b.connected_channel
    &&& a.last_queue_message == b.last_queue_message
    &&& a.bot_id == b.bot_id
    &&& a.paused == b.paused
    &&& a.volume == b.volume
}

/// Whether the tracks of `b` are those of `a`, with one more behind them whose ticket no other
/// track has or had.
pub open spec fn has_one_more(a: QueueModel, b: QueueModel) -> bool {
    &&& b.tracks.len() == a.tracks.len() + 1
    &&& forall|i: int| 0 <= i < a.tracks.len() ==> #[trigger] b.tracks[i] == a.tracks[i]
    &&& forall|i: int|
        0 <= i < a.tracks.len() ==> (#[trigger] a.tracks[i]).ticket != b.tracks.last().ticket
    &&& a.next_ticket <= b.tracks.last().ticket < b.next_ticket
}

/// A new queue is idle: nothing plays, nothing waits, the bot is in no channel, and the volume
/// is the one that was saved, or full.
pub proof fn new_queue_is_idle(bot_id: u64, volume: Option<u32>, q: Queue)
    requires
        call_ensures(Queue::new, (bot_id, volume), q),
    ensures
        q@.tracks.len() == 0,
        q@.currently_playing is None,
        q@.connected_channel is None,
        q@.last_queue_message is None,
        !q@.paused,
        q@.bot_id == bot_id,
        volume matches Some(v) ==> q@.volume == v,
        volume is None ==> q@.volume == 0x3f80_0000,
        q@.wf(),
{
}

/// An added track stands behind all others, under a ticket of its own, and is the track that was
/// asked for; nothing else of the queue changes.
pub proof fn added_track_stands_last(
    q: &mut Queue,
    source: TrackSource,
    cached: bool,
    effects: Vec<Effect>,
)
    requires
        old(q)@.wf(),
        old(q)@.next_ticket < u64::MAX,
        call_ensures(Queue::push_track, (q, source, cached), effects),
    ensures
        has_one_more(old(q)@, final(q)@),
        same_but_tracks(old(q)@, final(q)@),
        final(q)@.tracks.last().state.origin() == source,
        final(q)@.wf(),
{
}

/// A track that is not on disk waits for its download, and that download is the only thing that
/// adding it asks for: it is the download of the track that was just added.
pub proof fn added_track_is_the_one_downloaded(
    q: &mut Queue,
    source: TrackSource,
    effects: Vec<Effect>,
)
    requires
        old(q)@.wf(),
        old(q)@.next_ticket < u64::MAX,
        call_ensures(Queue::push_track, (q, source, false), effects),
    ensures
        effects@.len() == 1,
        effects@[0] matches Effect::Download { ticket } && ticket
            == final(q)@.tracks.last().ticket,
        forall|i: int|
            0 <= i < old(q)@.tracks.len() ==> (#[trigger] old(q)@.tracks[i]).ticket
                != effects@[0]->ticket,
        final(q)@.tracks.last().state == TrackState::Queueed(source),
        final(q)@.tracks.last().held,
{
}

/// A track that is on disk is ready at once, at the path where its download would have left it;
/// nothing holds it, nothing is downloaded, and the worker is told as after a download.
pub proof fn cached_track_is_ready(
    q: &mut Queue,
    source: TrackSource,
    effects: Vec<Effect>,
    path: String,
)
    requires
        old(q)@.wf(),
        old(q)@.next_ticket < u64::MAX,
        call_ensures(Queue::push_track, (q, source, true), effects),
        call_ensures(saved_path, (&source,), path),
    ensures
        effects@ == seq![Effect::Notify(QueueWorkerEvent::SongFinishedDownloading)],
        final(q)@.tracks.last().state matches TrackState::Ready { source: s, path: p } && s
            == source && p@ == path@,
        !final(q)@.tracks.last().held,
{
}

/// Each track that is added has its own download: of two that are added one after the other,
/// neither is downloaded in place of the other.
pub proof fn two_added_tracks_are_both_downloaded(
    q: &mut Queue,
    a: TrackSource,
    first: Vec<Effect>,
    later: &mut Queue,
    b: TrackSource,
    second: Vec<Effect>,
)
    requires
        old(q)@.wf(),
        old(q)@.next_ticket < u64::MAX - 1,
        call_ensures(Queue::push_track, (q, a, false), first),
        final(q)@ == old(later)@,
        call_ensures(Queue::push_track, (later, b, false), second),
    ensures
        final(later)@.tracks.len() == old(q)@.tracks.len() + 2,
        ({
            let n = old(q)@.tracks.len() as int;
            let tracks = final(later)@.tracks;
            &&& tracks[n].state == TrackState::Queueed(a)
            &&& tracks[n + 1].state == TrackState::Queueed(b)
            &&& tracks[n].ticket != tracks[n + 1].ticket
            &&& first@ == seq![Effect::Download { ticket: tracks[n].ticket }]
            &&& second@ == seq![Effect::Download { ticket: tracks[n + 1].ticket }]
        }),
{
}

/// Whether tracks can be had from a host, in lower case.
pub open spec fn is_open_host(lower: Seq<char>) -> bool {
    ||| lower == "youtube.com"@
    ||| lower == "www.youtube.com"@
    ||| lower == "youtu.be"@
    ||| lower == "www.youtu.be"@
    ||| lower == "soundcloud.com"@
    ||| lower == "www.soundcloud.com"@
    ||| exists|artist: Seq<char>| lower == #[trigger] (artist + "bandcamp.com"@)
}

/// An address is refused exactly if it has no host, or one from which no tracks can be had; the
/// refusal names the host, and the queue stays as it is.
pub proof fn refused_address_changes_nothing(
    q: &mut Queue,
    url: TrackUrl,
    embed_info: Option<EmbedInfo>,
    cached: bool,
    r: Result<Vec<Effect>, StringError>,
)
    requires
        old(q)@.wf(),
        old(q)@.next_ticket < u64::MAX,
        call_ensures(Queue::add_track, (q, url, embed_info, cached), r) || call_ensures(
            Queue::enqueue,
            (q, url, embed_info, cached),
            r,
        ),
    ensures
        r is Ok <==> url.host is Some && is_open_host(lowercase(url.host->0@)),
        r is Err ==> final(q)@ == old(q)@,
        r is Err && url.host is None ==> r->Err_0.0@ == "No host provided"@,
        r is Err && url.host is Some ==> r->Err_0.0@ == "Unsupported host: "@
            + url.host->0@,
{
    if url.host is Some {
        let lower = lowercase(url.host->0@);
        let tail = "bandcamp.com"@;
        if ends_with(lower, tail) {
            let artist = lower.take(lower.len() - tail.len());
            assert(lower =~= artist + tail);
        }
        if exists|artist: Seq<char>| lower == #[trigger] (artist + tail) {
            let artist = choose|artist: Seq<char>| lower == #[trigger] (artist + tail);
            assert(lower.skip(lower.len() - tail.len()) =~= tail);
        }
    }
}

/// Adding by address is adding the track at that address: what is said of it is kept where the
/// site is known, and the effects are those of adding the track.
pub proof fn address_is_added_as_its_track(
    q: &mut Queue,
    url: TrackUrl,
    embed_info: Option<EmbedInfo>,
    cached: bool,
    r: Result<Vec<Effect>, StringError>,
    path: String,
)
    requires
        old(q)@.wf(),
        old(q)@.next_ticket < u64::MAX,
        call_ensures(Queue::add_track, (q, url, embed_info, cached), r),
        r is Ok,
        call_ensures(saved_path, (&final(q)@.tracks.last().state.origin(),), path),
    ensures
        has_one_more(old(q)@, final(q)@),
        same_but_tracks(old(q)@, final(q)@),
        final(q)@.tracks.last().state.origin().address() == url,
        !(final(q)@.tracks.last().state.origin() is Unknown) ==> embed_info
            == final(q)@.tracks.last().state.origin().embed(),
        !cached ==> {
            &&& final(q)@.tracks.last().state is Queueed
            &&& final(q)@.tracks.last().held
            &&& r->Ok_0@ == seq![
                Effect::Download { ticket: final(q)@.tracks.last().ticket },
            ]
        },
        cached ==> {
            &&& final(q)@.tracks.last().state is Ready
            &&& final(q)@.tracks.last().state->path@ == path@
            &&& !final(q)@.tracks.last().held
            &&& r->Ok_0@ == seq![Effect::Notify(QueueWorkerEvent::SongFinishedDownloading)]
        },
        final(q)@.wf(),
{
}

/// The command to add a track does what adding it does, and then tells the worker that the queue
/// has changed.
pub proof fn enqueue_adds_and_tells(
    q: &mut Queue,
    url: TrackUrl,
    embed_info: Option<EmbedInfo>,
    cached: bool,
    r: Result<Vec<Effect>, StringError>,
)
    requires
        old(q)@.wf(),
        old(q)@.next_ticket < u64::MAX,
        call_ensures(Queue::enqueue, (q, url, embed_info, cached), r),
        r is Ok,
    ensures
        has_one_more(old(q)@, final(q)@),
        same_but_tracks(old(q)@, final(q)@),
        final(q)@.tracks.last().state.origin().address() == url,
        !(final(q)@.tracks.last().state.origin() is Unknown) ==> embed_info
            == final(q)@.tracks.last().state.origin().embed(),
        final(q)@.tracks.last().held == !cached,
        cached ==> final(q)@.tracks.last().state is Ready,
        !cached ==> final(q)@.tracks.last().state is Queueed,
        r->Ok_0@ == seq![
            if cached {
                Effect::Notify(QueueWorkerEvent::SongFinishedDownloading)
            } else {
                Effect::Download { ticket: final(q)@.tracks.last().ticket }
            },
            Effect::Notify(QueueWorkerEvent::StateUpdate),
        ],
        final(q)@.wf(),
{
    let effects = r->Ok_0@;
    assert(effects =~= effects.drop_last().push(effects.last()));
}

/// Clearing takes every waiting track and nothing else.
pub proof fn cleared_queue_has_no_tracks(q: &mut Queue)
    requires
        call_ensures(Queue::clear, (q,), ()),
    ensures
        final(q)@.tracks.len() == 0,
        same_but_tracks(old(q)@, final(q)@),
        final(q)@.next_ticket == old(q)@.next_ticket,
{
}

/// Removing by number takes the track with that number, counted from one: those before it stay
/// where they are, those behind it move up by one, and the worker is told.
pub proof fn remove_takes_the_numbered_track(q: &mut Queue, number: usize, r: Removal)
    requires
        old(q)@.wf(),
        1 <= number <= old(q)@.tracks.len(),
        call_ensures(Queue::remove, (q, number), r),
    ensures
        final(q)@.tracks.len() == old(q)@.tracks.len() - 1,
        forall|i: int|
            0 <= i < number - 1 ==> #[trigger] final(q)@.tracks[i] == old(q)@.tracks[i],
        forall|i: int|
            number - 1 <= i < final(q)@.tracks.len() ==> old(q)@.tracks[i + 1]
                == #[trigger] final(q)@.tracks[i],
        forall|i: int|
            0 <= i < final(q)@.tracks.len() ==> (#[trigger] final(q)@.tracks[i]).ticket
                != old(q)@.tracks[number - 1].ticket,
        same_but_tracks(old(q)@, final(q)@),
        final(q)@.next_ticket == old(q)@.next_ticket,
        r matches Removal::Removed(effects) && effects@ == seq![
            Effect::Notify(QueueWorkerEvent::StateUpdate),
        ],
{
}

/// A number that no track has removes nothing, and the answer says how many tracks there are; an
/// empty queue has nothing to remove.
pub proof fn remove_of_no_track_changes_nothing(q: &mut Queue, number: usize, r: Removal)
    requires
        old(q)@.wf(),
        number == 0 || number > old(q)@.tracks.len(),
        call_ensures(Queue::remove, (q, number), r),
    ensures
        final(q)@ == old(q)@,
        old(q)@.tracks.len() == 0 ==> r is Nothing,
        old(q)@.tracks.len() > 0 ==> (r matches Removal::Invalid(text) && text@
            == "Invalid index, should be between 1 and "@ + decimal(old(q)@.tracks.len())),
{
}

/// Adding a track and removing the last one leaves the tracks that there were.
pub proof fn remove_undoes_adding(
    q: &mut Queue,
    source: TrackSource,
    cached: bool,
    effects: Vec<Effect>,
    later: &mut Queue,
    number: usize,
    r: Removal,
)
    requires
        old(q)@.wf(),
        old(q)@.next_ticket < u64::MAX,
        call_ensures(Queue::push_track, (q, source, cached), effects),
        final(q)@ == old(later)@,
        number == final(q)@.tracks.len(),
        call_ensures(Queue::remove, (later, number), r),
    ensures
        final(later)@.tracks == old(q)@.tracks,
        same_but_tracks(old(q)@, final(later)@),
{
    remove_takes_the_numbered_track(later, number, r);
    assert(final(later)@.tracks =~= old(q)@.tracks);
}

/// What is noted of a track is what is read of it later, and of no other track; nothing else of
/// the queue changes.
pub proof fn noted_state_is_read_back(
    q: &mut Queue,
    ticket: u64,
    state: TrackState,
    earlier: Queue,
    later: Queue,
    other: u64,
    before: Option<TrackState>,
    after: Option<TrackState>,
)
    requires
        old(q)@.wf(),
        earlier@ == old(q)@,
        call_ensures(Queue::state, (&earlier, other), before),
        call_ensures(Queue::set_state, (q, ticket, state), ()),
        later@ == final(q)@,
        call_ensures(Queue::state, (&later, other), after),
    ensures
        before is Some <==> after is Some,
        other == ticket && before is Some ==> after == Some(state),
        other != ticket ==> after == before,
        same_but_tracks(old(q)@, final(q)@),
        final(q)@.tracks.len() == old(q)@.tracks.len(),
        forall|i: int|
            0 <= i < old(q)@.tracks.len() ==> {
                let before = old(q)@.tracks[i];
                let after = #[trigger] final(q)@.tracks[i];
                after.ticket == before.ticket && after.held == before.held
            },
        final(q)@.next_ticket == old(q)@.next_ticket,
{
    let t = old(q)@.tracks;
    let u = final(q)@.tracks;
    assert(u.len() == t.len());
    assert forall|i: int| 0 <= i < t.len() implies (#[trigger] t[i]).ticket == u[i].ticket && (
    t[i].ticket == ticket ==> u[i].state == state) && (t[i].ticket != ticket ==> u[i] == t[i]) by {
        assert(u[i].ticket == t[i].ticket);
    }
    if before is Some {
        let i = choose|i: int|
            0 <= i < t.len() && (#[trigger] t[i]).ticket == other && t[i].state == before->0;
        assert(u[i].ticket == other);
    }
    if after is Some {
        let i = choose|i: int|
            0 <= i < u.len() && (#[trigger] u[i]).ticket == other && u[i].state == after->0;
        assert(t[i].ticket == other);
    }
}

/// A track is found under its ticket, in the state that it is in; a ticket that no track has
/// finds nothing.
pub proof fn state_is_found_by_ticket(q: Queue, ticket: u64, r: Option<TrackState>)
    requires
        q@.wf(),
        call_ensures(Queue::state, (&q, ticket), r),
    ensures
        forall|i: int|
            0 <= i < q@.tracks.len() && (#[trigger] q@.tracks[i]).ticket == ticket ==> r == Some(
                q@.tracks[i].state,
            ),
        (forall|i: int| 0 <= i < q@.tracks.len() ==> (#[trigger] q@.tracks[i]).ticket != ticket)
            ==> r is None,
{
    if r is Some {
        let k = choose|k: int|
            0 <= k < q@.tracks.len() && (#[trigger] q@.tracks[k]).ticket == ticket
                && q@.tracks[k].state == r->0;
        assert forall|i: int|
            0 <= i < q@.tracks.len() && (#[trigger] q@.tracks[i]).ticket == ticket implies i
            == k by {
            if i < k {
                assert(q@.tracks[i].ticket < q@.tracks[k].ticket);
            } else if k < i {
                assert(q@.tracks[k].ticket < q@.tracks[i].ticket);
            }
        }
    }
}

/// A track that its download lets go of is no longer held; its state, all other tracks and the
/// rest of the queue stay as they are.
pub proof fn released_track_is_free(q: &mut Queue, ticket: u64)
    requires
        old(q)@.wf(),
        call_ensures(Queue::release, (q, ticket), ()),
    ensures
        same_but_tracks(old(q)@, final(q)@),
        final(q)@.next_ticket == old(q)@.next_ticket,
        final(q)@.tracks.len() == old(q)@.tracks.len(),
        forall|i: int|
            0 <= i < old(q)@.tracks.len() ==> {
                let before = old(q)@.tracks[i];
                let after = #[trigger] final(q)@.tracks[i];
                &&& after.ticket == before.ticket
                &&& after.state == before.state
                &&& after.held == (before.held && before.ticket != ticket)
            },
{
}

} // verus!
