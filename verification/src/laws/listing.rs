//! Showing a queue and its tracks.

use vstd::prelude::*;
use vstd::string::*;

use crate::commands::list_queue;
use crate::error::StringError;
use crate::message::MessageParams;
use crate::queue::{
    channel_text, playing_text, track_lines, LastQueueMessage, Queue, QueueModel, Track,
};
use crate::text::decimal;
use crate::track::{TrackSource, TrackState};

verus! {

/// A queue in which nothing waits shows its channel, if it has one, then what plays, and then
/// that nothing waits. A song that is paused shows as paused.
pub proof fn empty_queue_is_shown(q: Queue, r: String, song: String)
    requires
        q@.tracks.len() == 0,
        call_ensures(Queue::to_string, (&q,), r),
        q@.currently_playing matches Some(source) ==> call_ensures(
            TrackSource::to_string,
            (&source,),
            song,
        ),
    ensures
        ({
            let channel = match q@.connected_channel {
                Some(id) => "Currently connected to: "@ + ("<#"@ + decimal(id as nat) + ">"@)
                    + "\n"@,
                None => Seq::empty(),
            };
            let playing = if q@.currently_playing is None {
                "Nothing currently playing\n"@
            } else if q@.paused {
                "**"@ + "Paused on"@ + "** "@ + song@ + "\n"@
            } else {
                "**"@ + "Playing"@ + "** "@ + song@ + "\n"@
            };
            r@ == channel + playing + "No queued tracks"@
        }),
{
}

/// Every track has its line, whatever its state: with one more track a queue shows all that it
/// showed before, and behind it the number of the track, counted from one, and the track itself.
pub proof fn every_track_has_its_line(
    q: Queue,
    shown: String,
    more: Queue,
    shown_more: String,
    track: String,
)
    requires
        call_ensures(Queue::to_string, (&q,), shown),
        call_ensures(Queue::to_string, (&more,), shown_more),
        more@.tracks.len() == q@.tracks.len() + 1,
        forall|i: int| 0 <= i < q@.tracks.len() ==> #[trigger] more@.tracks[i] == q@.tracks[i],
        more@.currently_playing == q@.currently_playing,
        more@.connected_channel == q@.connected_channel,
        more@.paused == q@.paused,
        call_ensures(TrackState::to_string, (&more@.tracks.last().state,), track),
    ensures
        ({
            let line = "**"@ + decimal(more@.tracks.len()) + "**: "@ + track@ + "\n"@;
            let none = "No queued tracks"@;
            if q@.tracks.len() == 0 {
                &&& shown@.skip(shown@.len() - none.len()) == none
                &&& shown_more@ == shown@.take(shown@.len() - none.len()) + line
            } else {
                shown_more@ == shown@ + line
            }
        }),
{
    assert(more@.tracks.drop_last() =~= q@.tracks);
    let none = "No queued tracks"@;
    let line = "**"@ + decimal(more@.tracks.len()) + "**: "@ + track@ + "\n"@;
    let head = channel_text(q@.connected_channel) + playing_text(
        q@.currently_playing,
        q@.paused,
    );
    if q@.tracks.len() == 0 {
        assert(track_lines(q@.tracks) =~= Seq::empty());
        assert(shown@.take(shown@.len() - none.len()) =~= head);
        assert(shown@.skip(shown@.len() - none.len()) =~= none);
        assert(track_lines(more@.tracks) =~= line);
    } else {
        assert(shown_more@ =~= shown@ + line);
    }
}

/// The lines of a listing are those of its tracks, one after the other: another track adds its
/// line behind the others.
pub proof fn lines_are_added_behind(tracks: Seq<Track>, track: Track)
    ensures
        track_lines(Seq::empty()) == Seq::<char>::empty(),
        track_lines(tracks.push(track)) == track_lines(tracks) + ("**"@ + decimal(tracks.len() + 1)
            + "**: "@ + track.state.shown() + "\n"@),
{
    assert(tracks.push(track).drop_last() =~= tracks);
}

/// A track shows how far it is: a ready one shows only its source, and any other has a label
/// before it; a failure, of either kind, also says why.
pub proof fn track_shows_its_progress(state: TrackState, r: String, source: String)
    requires
        call_ensures(TrackState::to_string, (&state,), r),
        call_ensures(TrackSource::to_string, (&state.origin(),), source),
    ensures
        state is Ready ==> r@ == source@,
        state is Queueed ==> r@ == "**Queued & Processing** "@ + source@,
        state is Downloading ==> r@ == "**Downloading** "@ + source@,
        state matches TrackState::Failed { source: _, error } ==> r@ == "**Failed** "@ + source@
            + ", "@ + error@,
        state matches TrackState::SimpleFailed { source: _, error } ==> r@ == "**Failed** "@
            + source@ + ", "@ + error@,
{
}

/// A track of a known site shows its title as a link to its address, or the address alone where
/// no title is known; any other track shows the debug form of its address.
pub proof fn source_shows_its_title(source: TrackSource, r: String)
    requires
        call_ensures(TrackSource::to_string, (&source,), r),
    ensures
        source matches TrackSource::Unknown(url) ==> r@ == "Unknown("@ + url.debug@ + ")"@,
        source matches TrackSource::YouTube { url, embed_info } ==> match embed_info {
            Some(info) => r@ == "["@ + info.title@ + "]("@ + url.text@ + ")"@,
            None => r@ == url.text@,
        },
        source matches TrackSource::SoundCloud { url, embed_info } ==> match embed_info {
            Some(info) => r@ == "["@ + info.title@ + "]("@ + url.text@ + ")"@,
            None => r@ == url.text@,
        },
{
}

/// Whatever shows the queue shows the same text: the answer to a question for it, which is
/// given in a channel of a guild only, and the message that is kept up to date, if one is
/// noted.
pub proof fn queue_is_shown_alike(
    q: Queue,
    shown: String,
    in_guild_channel: bool,
    answer: Result<MessageParams, StringError>,
    update: Option<(LastQueueMessage, MessageParams)>,
)
    requires
        call_ensures(Queue::to_string, (&q,), shown),
        call_ensures(list_queue, (&q, in_guild_channel), answer),
        call_ensures(Queue::message_update, (&q,), update),
    ensures
        answer is Ok <==> in_guild_channel,
        answer matches Ok(params) ==> {
            &&& params.message matches Some(text)
            &&& text@ == shown@
            &&& params.title is None
            &&& params.color is None
            &&& params.fields is None
        },
        answer matches Err(e) ==> e.0@ == "Not in a guild channel"@,
        update is Some <==> q@.last_queue_message is Some,
        update matches Some((last, params)) ==> {
            &&& q@.last_queue_message == Some(last)
            &&& params.message matches Some(text)
            &&& text@ == shown@
            &&& params.title is None
            &&& params.color is None
            &&& params.fields is None
        },
{
}

/// The message that is noted is the one that is updated, and noting it changes nothing else.
pub proof fn noted_message_is_updated(
    q: &mut Queue,
    message: LastQueueMessage,
    later: Queue,
    update: Option<(LastQueueMessage, MessageParams)>,
)
    requires
        call_ensures(Queue::set_last_queue_message, (q, message), ()),
        later@ == final(q)@,
        call_ensures(Queue::message_update, (&later,), update),
    ensures
        final(q)@ == (QueueModel { last_queue_message: Some(message), ..old(q)@ }),
        update matches Some((last, _)) && last == message,
{
}

/// What is counted and what is known of a queue is what it holds.
pub proof fn queue_tells_what_it_holds(q: Queue, count: usize, bot: u64, more: bool)
    requires
        call_ensures(Queue::len, (&q,), count),
        call_ensures(Queue::bot_id, (&q,), bot),
        call_ensures(Queue::has_ticket, (&q,), more),
    ensures
        count == q@.tracks.len(),
        bot == q@.bot_id,
        more <==> q@.next_ticket != u64::MAX,
{
}

} // verus!
