//! Laws of the daemon.
use crate::daemon::control::{
    enqueued, load, obeyed, repeat_set, shuffle_set, stepped, ListingView, OutcomeView,
};
use crate::daemon::events::{credited, CreditsView, followed, EventView, Reaction};
use crate::daemon::load::{
    is_current, on_fetched, on_turn, refreshed, remembered, ActView, ReplyView, RequestView,
};
use crate::daemon::modes::{PlaybackModes, RepeatMode};
use crate::daemon::order::{is_order, play_order, play_order_is_complete};
use crate::daemon::queue::{idle, QueueView, SourceView};
use crate::daemon::state::{fresh, CacheView, DaemonView, PlayState};
use crate::media::{base62_id, MediaUri};
use crate::daemon::volume::{level_of, set_volume_reads_back};
use crate::text::{
    number, blank_joined, decimal, decimal_reads_back, is_word, joined, lemma_decimal,
    lemma_first_word, lemma_place, lemma_place_is, lemma_words_behind_blank, lemma_words_of_joined,
    words,
};
use vstd::prelude::*;

verus! {

/// A load that succeeds starts a queue over the whole list, at the first place of the
/// track asked for, in the order that the modes give: listed, or shuffled with the track
/// asked for in front and every other track behind it.
pub proof fn load_plays_in_the_order_of_the_modes(
    d: DaemonView,
    request: RequestView,
    ids: Seq<Seq<char>>,
    index: int,
)
    requires
        is_current(d, request.request_id),
        0 <= index < ids.len() <= usize::MAX,
        ids[index] == request.track_id,
        forall|i: int| 0 <= i < index ==> #[trigger] ids[i] != request.track_id,
        base62_id(request.track_id) is Some,
    ensures
        ({
            let after = on_fetched(d, request, Ok(ids)).0;
            let q = after.queue;
            let made = play_order(ids.len(), index as usize, d.modes.shuffle, d.modes.shuffle_seed);
            &&& q.track_ids == ids
            &&& q.current_index == Some(index as usize)
            &&& q.play_order == made.0
            &&& is_order(q.play_order, ids.len())
            &&& d.modes.shuffle ==> q.order_position == Some(0usize) && q.play_order[0] == index
            &&& !d.modes.shuffle ==> q.order_position == Some(index as usize) && forall|i: int|
                0 <= i < ids.len() ==> #[trigger] q.play_order[i] == i
            &&& after.modes == (PlaybackModes { shuffle_seed: made.1, ..d.modes })
            &&& q.wf()
        }),
{
    lemma_place_is(ids, request.track_id, index);
    play_order_is_complete(ids.len(), index as usize, d.modes.shuffle, d.modes.shuffle_seed);
    let order = play_order(ids.len(), index as usize, d.modes.shuffle, d.modes.shuffle_seed).0;
    if d.modes.shuffle {
        lemma_place_is(order, index as usize, 0);
    } else {
        lemma_place_is(order, index as usize, index);
    }
}

/// A track of a list that is known starts the same queue as if the list had been fetched.
pub proof fn known_list_loads_like_a_fetched_one(d: DaemonView, request: RequestView)
    requires
        is_current(d, request.request_id),
        remembered(d.cache, request.source).contains(request.track_id),
    ensures
        ({
            let fetched = on_fetched(d, request, Ok(remembered(d.cache, request.source)));
            &&& on_turn(d, request).1 == Some(fetched.1)
            &&& on_turn(d, request).0.queue == fetched.0.queue
            &&& on_turn(d, request).0.modes == fetched.0.modes
            &&& on_turn(d, request).0.cache == d.cache
        }),
{
    lemma_place(remembered(d.cache, request.source), request.track_id);
}

/// A load that fails leaves the queue, the modes and the player alone and says so: the
/// fetch failed, the track is not in the list, or its id is none.
pub proof fn failed_load_changes_nothing(
    d: DaemonView,
    request: RequestView,
    fetched: Result<Seq<Seq<char>>, Seq<char>>,
)
    requires
        fetched is Err || !fetched->Ok_0.contains(request.track_id) || base62_id(request.track_id)
            is None,
    ensures
        on_fetched(d, request, fetched).0.queue == d.queue,
        on_fetched(d, request, fetched).0.modes == d.modes,
        on_fetched(d, request, fetched).1.act is Nothing,
        is_current(d, request.request_id) ==> "ERR "@.is_prefix_of(
            on_fetched(d, request, fetched).1.text,
        ),
{
    reveal_strlit("ERR ");
    reveal_strlit("ERR track '");
    reveal_strlit("ERR bad track id '");
    reveal_strlit("ERR playlist queue fetch failed: ");
    reveal_strlit("ERR liked queue fetch failed: ");
    let text = on_fetched(d, request, fetched).1.text;
    if fetched is Ok {
        lemma_place(fetched->Ok_0, request.track_id);
    }
    if is_current(d, request.request_id) {
        assert(text.subrange(0, 4) =~= "ERR "@);
    }
}

/// What is remembered of one list is what was fetched for it, and no other list changes.
pub proof fn lists_are_remembered_apart(
    cache: CacheView,
    source: SourceView,
    other: SourceView,
    ids: Seq<Seq<char>>,
)
    requires
        match (source, other) {
            (SourceView::Playlist(a), SourceView::Playlist(b)) => crate::daemon::browse::cache_key(a)
                != crate::daemon::browse::cache_key(b),
            _ => source != other,
        },
    ensures
        remembered(refreshed(cache, source, ids), source) == ids,
        remembered(refreshed(cache, source, ids), other) == remembered(cache, other),
{
}

/// Within the order a step goes to the neighbour, whatever the repeat mode. Only at the
/// two ends does the mode decide: repeating all goes round, anything else stays.
pub proof fn steps_go_to_the_neighbours(q: QueueView, repeat: RepeatMode, p: usize)
    requires
        q.wf(),
        q.order_position == Some(p),
    ensures
        p + 1 < q.play_order.len() ==> q.target(true, repeat) == Some((p + 1) as usize),
        p > 0 ==> q.target(false, repeat) == Some((p - 1) as usize),
        p + 1 == q.play_order.len() ==> q.target(true, repeat) == if repeat == RepeatMode::All {
            Some(0usize)
        } else {
            None
        },
        p == 0 ==> q.target(false, repeat) == if repeat == RepeatMode::All {
            Some((q.play_order.len() - 1) as usize)
        } else {
            None
        },
{
}

/// `NEXT` and `PREVIOUS` load the neighbour in the order, whatever the repeat mode.
pub proof fn step_loads_the_neighbour(d: DaemonView, forward: bool, p: usize)
    requires
        d.wf(),
        d.queue.order_position == Some(p),
        forward ==> p + 1 < d.queue.play_order.len(),
        !forward ==> p > 0,
        ({
            let to = if forward {
                p + 1
            } else {
                p - 1
            };
            base62_id(d.queue.track_ids[d.queue.play_order[to] as int]) is Some
        }),
    ensures
        ({
            let to = if forward {
                p + 1
            } else {
                p - 1
            };
            let index = d.queue.play_order[to];
            let track = d.queue.track_ids[index as int];
            let (after, reply) = stepped(d, forward);
            &&& reply.act == ActView::Load(base62_id(track)->0)
            &&& after.queue.current() == Some(track)
            &&& after.queue.current_index == Some(index)
            &&& after.queue.order_position == Some(to as usize)
            &&& after.queue.play_order == d.queue.play_order
            &&& after.queue.track_ids == d.queue.track_ids
            &&& after.modes == d.modes
        }),
{
}

/// A step past an end of the order that does not go round changes nothing.
pub proof fn boundary_changes_nothing(d: DaemonView, forward: bool)
    requires
        d.wf(),
        d.modes.repeat != RepeatMode::All,
        match d.queue.order_position {
            None => true,
            Some(p) => if forward {
                p + 1 == d.queue.play_order.len()
            } else {
                p == 0
            },
        },
    ensures
        stepped(d, forward).0 == d,
        stepped(d, forward).1.act is Nothing,
        stepped(d, forward).1.text == "OK queue boundary\n"@,
{
}

/// The end of the current track does what `NEXT` does, unless one track repeats. Where
/// `NEXT` would stop at the boundary, the queue is done instead.
pub proof fn end_of_track_steps_like_next(d: DaemonView, id: u128)
    requires
        d.wf(),
        d.queue.current() is Some,
        base62_id(d.queue.current()->0) == Some(id),
        d.modes.repeat != RepeatMode::One,
    ensures
        ({
            let (after, reaction) = followed(d, EventView::EndOfTrack(MediaUri::Track(id)));
            let (next, reply) = stepped(d, true);
            &&& reply.act matches ActView::Load(n) ==> after == next && reaction == Reaction::Load(n)
            &&& !(reply.act is Load) ==> after.queue == idle() && reaction == Reaction::Nothing
                && after.state == PlayState::Stopped && after.position is None && after.now_playing
                is None
        }),
{
}

/// Where one track repeats, its end loads it again and nothing else changes.
pub proof fn repeated_track_is_loaded_again(d: DaemonView, id: u128)
    requires
        d.wf(),
        d.queue.current() is Some,
        base62_id(d.queue.current()->0) == Some(id),
        d.modes.repeat == RepeatMode::One,
    ensures
        followed(d, EventView::EndOfTrack(MediaUri::Track(id))) == (d, Reaction::Load(id)),
{
    assert(d.queue.moved_to(d.queue.order_position->0) == d.queue);
}

/// The end of any other track leaves the queue alone, and nothing plays any more.
pub proof fn other_end_keeps_the_queue(d: DaemonView, uri: MediaUri)
    requires
        match (d.queue.current(), uri) {
            (Some(track), MediaUri::Track(id)) => base62_id(track) != Some(id),
            _ => true,
        },
    ensures
        ({
            let (after, reaction) = followed(d, EventView::EndOfTrack(uri));
            &&& after.queue == d.queue
            &&& after.modes == d.modes
            &&& reaction == Reaction::Nothing
            &&& after.state == PlayState::Stopped
            &&& after.position is None
            &&& after.now_playing is None
        }),
{
}

/// The daemon when an unavailable track has ended all playback.
pub open spec fn silenced(d: DaemonView) -> DaemonView {
    DaemonView {
        queue: idle(),
        state: PlayState::Stopped,
        position: None,
        now_playing: None,
        unavailable: 1,
        ..d
    }
}

/// The second unavailable track in a row is given up on, with the queue as it is.
pub proof fn second_unavailable_track_is_an_error(d: DaemonView)
    requires
        d.unavailable >= 1,
    ensures
        followed(d, EventView::Unavailable).1 == Reaction::Exit,
        followed(d, EventView::Unavailable).0.state == PlayState::Error,
        followed(d, EventView::Unavailable).0.queue == d.queue,
{
}

/// The first track that is unavailable is the one that is tried again.
pub proof fn unavailable_track_is_tried_again(d: DaemonView)
    requires
        d.wf(),
        d.unavailable == 0,
    ensures
        ({
            let (after, reaction) = followed(d, EventView::Unavailable);
            match d.queue.current() {
                Some(track) => match base62_id(track) {
                    Some(id) => reaction == Reaction::Retry(id) && after == (DaemonView {
                        state: PlayState::Loading,
                        unavailable: 1,
                        ..d
                    }),
                    None => reaction == Reaction::Stop && after == silenced(d),
                },
                None => reaction == Reaction::Stop && after == silenced(d),
            }
        }),
{
}

/// What the player reports is what is known afterwards; no report but the end of a track
/// and an unavailable one touches the queue, and none the modes.
pub proof fn events_are_taken_over(d: DaemonView, event: EventView)
    ensures
        ({
            let after = followed(d, event).0;
            &&& after.modes == d.modes
            &&& after.cache == d.cache
            &&& after.latest_load_request == d.latest_load_request
            &&& !(event is EndOfTrack) && !(event is Unavailable) ==> after.queue == d.queue
            &&& event matches EventView::Loading(ms) ==> after.state == PlayState::Loading
                && after.position == Some(ms)
            &&& event matches EventView::Playing(ms) ==> after.state == PlayState::Playing
                && after.position == Some(ms) && after.unavailable == 0
            &&& event matches EventView::Paused(ms) ==> after.state == PlayState::Paused
                && after.position == Some(ms)
            &&& event matches EventView::Moved(ms) ==> after.state == d.state && after.position
                == Some(ms) && after.now_playing == d.now_playing
            &&& event is Stopped ==> after.state == PlayState::Stopped && after.position is None
                && after.now_playing is None
            &&& event is Other ==> after == d
        }),
{
}

/// A track that starts is known by its name, its length and what stands behind the last
/// colon of its URI, as far as they hold no separator.
pub proof fn started_track_is_known(d: DaemonView, event: EventView, head: Seq<char>, id: Seq<char>)
    requires
        event is TrackChanged,
        event->TrackChanged_0.uri == head + seq![':'] + id,
        !id.contains(':'),
        forall|i: int|
            0 <= i < id.len() ==> #[trigger] id[i] != '\t' && id[i] != '\r' && id[i] != '\n',
        forall|i: int|
            0 <= i < event->TrackChanged_0.name.len() ==> #[trigger] event->TrackChanged_0.name[i]
                != '\t' && event->TrackChanged_0.name[i] != '\r' && event->TrackChanged_0.name[i] != '\n',
    ensures
        ({
            let after = followed(d, event).0;
            &&& after.now_playing is Some
            &&& after.now_playing->0.id == id
            &&& after.now_playing->0.title == event->TrackChanged_0.name
            &&& after.now_playing->0.duration_ms == event->TrackChanged_0.duration_ms
            &&& after.state == d.state
            &&& after.position == d.position
            &&& after.queue == d.queue
        }),
{
    let item = event->TrackChanged_0;
    lemma_after_last(head, id);
    assert(crate::daemon::browse::sanitized(id) =~= id);
    assert(crate::daemon::browse::sanitized(item.name) =~= item.name);
}

/// What stands behind the last colon.
pub proof fn lemma_after_last(head: Seq<char>, id: Seq<char>)
    requires
        !id.contains(':'),
    ensures
        crate::text::after_last(head + seq![':'] + id, ':') == id,
    decreases head.len(),
{
    let s = head + seq![':'] + id;
    crate::text::lemma_index_of(head, ':');
    let k = crate::text::index_of(head, ':') as int;
    if k < head.len() {
        assert forall|i: int| 0 <= i < k implies #[trigger] s[i] != ':' by {
            assert(s[i] == head[i]);
        }
        crate::text::lemma_index_of_is(s, ':', k);
        assert(s.skip(k + 1) =~= head.skip(k + 1) + seq![':'] + id);
        lemma_after_last(head.skip(k + 1), id);
    } else {
        assert forall|i: int| 0 <= i < head.len() implies #[trigger] s[i] != ':' by {
            assert(s[i] == head[i]);
        }
        crate::text::lemma_index_of_is(s, ':', head.len() as int);
        assert(s.skip(head.len() as int + 1) =~= id);
        crate::text::lemma_index_of(id, ':');
        if crate::text::index_of(id, ':') < id.len() {
            assert(id.contains(id[crate::text::index_of(id, ':') as int]));
        }
        assert(crate::text::after_last(id, ':') == id);
    }
}

/// Shuffle that is turned on leaves the track that plays, gives it the first turn and
/// every other track one behind it, in the order that the generator draws; turned off, the
/// turns are those of the list.
pub proof fn shuffle_reorders_around_the_track(d: DaemonView, on: bool)
    requires
        d.wf(),
        d.queue.current_index is Some,
    ensures
        ({
            let word = if on {
                "ON"@
            } else {
                "OFF"@
            };
            let index = d.queue.current_index->0;
            let made = play_order(d.queue.track_ids.len(), index, on, d.modes.shuffle_seed);
            let after = shuffle_set(d, word).0;
            &&& after.modes.shuffle == on
            &&& after.modes.repeat == d.modes.repeat
            &&& after.modes.shuffle_seed == made.1
            &&& after.queue.play_order == made.0
            &&& after.queue.current_index == Some(index)
            &&& after.queue.track_ids == d.queue.track_ids
            &&& after.queue.source == d.queue.source
            &&& after.queue.request_id == d.queue.request_id
            &&& is_order(after.queue.play_order, d.queue.track_ids.len())
            &&& after.queue.order_position == if on {
                Some(0usize)
            } else {
                Some(index)
            }
        }),
{
    reveal_strlit("ON");
    reveal_strlit("OFF");
    assert("ON"@.len() == 2 && "OFF"@.len() == 3);
    let index = d.queue.current_index->0;
    assert(d.queue.play_order[d.queue.order_position->0 as int] == index);
    let len = d.queue.track_ids.len();
    play_order_is_complete(len, index, on, d.modes.shuffle_seed);
    let order = play_order(len, index, on, d.modes.shuffle_seed).0;
    if on {
        lemma_place_is(order, index, 0);
    } else {
        lemma_place_is(order, index, index as int);
    }
}

/// A mode that is set is set, the other one and the queue stay; without a queue shuffle
/// changes the mode alone.
pub proof fn modes_are_set_apart(d: DaemonView, word: Seq<char>)
    ensures
        ({
            let after = repeat_set(d, word).0;
            &&& after.queue == d.queue
            &&& after.modes.shuffle == d.modes.shuffle
            &&& after.modes.shuffle_seed == d.modes.shuffle_seed
            &&& word == "OFF"@ ==> after.modes.repeat == RepeatMode::Off
            &&& word == "ALL"@ ==> after.modes.repeat == RepeatMode::All
            &&& word == "ONE"@ ==> after.modes.repeat == RepeatMode::One
            &&& word != "OFF"@ && word != "ALL"@ && word != "ONE"@ ==> after == d
        }),
        d.queue.current_index is None ==> shuffle_set(d, word).0.queue == d.queue,
        word == "ON"@ ==> shuffle_set(d, word).0.modes.shuffle,
        word == "OFF"@ ==> !shuffle_set(d, word).0.modes.shuffle,
        word != "ON"@ && word != "OFF"@ ==> shuffle_set(d, word).0 == d,
{
    reveal_strlit("ON");
    reveal_strlit("OFF");
    reveal_strlit("ALL");
    reveal_strlit("ONE");
    assert("ON"@.len() == 2 && "OFF"@.len() == 3 && "OFF"@[0] == 'O' && "ALL"@[0] == 'A');
    assert("ONE"@[1] == 'N' && "OFF"@[1] == 'F' && "ONE"@[0] == 'O');
}

/// No two words of the protocol are alike in their length and first three letters.
pub proof fn lemma_command_words()
    ensures
        "LOAD"@.len() == 4 && "LOAD"@[0] == 'L' && "LOAD"@[1] == 'O' && "LOAD"@[2] == 'A',
        "LOAD_LIKED"@.len() == 10 && "LOAD_LIKED"@[0] == 'L' && "LOAD_LIKED"@[1] == 'O' && "LOAD_LIKED"@[2] == 'A',
        "LOAD_PLAYLIST"@.len() == 13 && "LOAD_PLAYLIST"@[0] == 'L' && "LOAD_PLAYLIST"@[1] == 'O' && "LOAD_PLAYLIST"@[2] == 'A',
        "LOAD_SEARCH"@.len() == 11 && "LOAD_SEARCH"@[0] == 'L' && "LOAD_SEARCH"@[1] == 'O' && "LOAD_SEARCH"@[2] == 'A',
        "PLAY"@.len() == 4 && "PLAY"@[0] == 'P' && "PLAY"@[1] == 'L' && "PLAY"@[2] == 'A',
        "PAUSE"@.len() == 5 && "PAUSE"@[0] == 'P' && "PAUSE"@[1] == 'A' && "PAUSE"@[2] == 'U',
        "STOP"@.len() == 4 && "STOP"@[0] == 'S' && "STOP"@[1] == 'T' && "STOP"@[2] == 'O',
        "NEXT"@.len() == 4 && "NEXT"@[0] == 'N' && "NEXT"@[1] == 'E' && "NEXT"@[2] == 'X',
        "PREVIOUS"@.len() == 8 && "PREVIOUS"@[0] == 'P' && "PREVIOUS"@[1] == 'R' && "PREVIOUS"@[2] == 'E',
        "PLAYBACK_MODES"@.len() == 14 && "PLAYBACK_MODES"@[0] == 'P' && "PLAYBACK_MODES"@[1] == 'L' && "PLAYBACK_MODES"@[2] == 'A',
        "SET_SHUFFLE"@.len() == 11 && "SET_SHUFFLE"@[0] == 'S' && "SET_SHUFFLE"@[1] == 'E' && "SET_SHUFFLE"@[2] == 'T',
        "SET_REPEAT"@.len() == 10 && "SET_REPEAT"@[0] == 'S' && "SET_REPEAT"@[1] == 'E' && "SET_REPEAT"@[2] == 'T',
        "STATUS"@.len() == 6 && "STATUS"@[0] == 'S' && "STATUS"@[1] == 'T' && "STATUS"@[2] == 'A',
        "QUEUE_STATUS"@.len() == 12 && "QUEUE_STATUS"@[0] == 'Q' && "QUEUE_STATUS"@[1] == 'U' && "QUEUE_STATUS"@[2] == 'E',
        "QUEUE_PAGE"@.len() == 10 && "QUEUE_PAGE"@[0] == 'Q' && "QUEUE_PAGE"@[1] == 'U' && "QUEUE_PAGE"@[2] == 'E',
        "NOW_PLAYING"@.len() == 11 && "NOW_PLAYING"@[0] == 'N' && "NOW_PLAYING"@[1] == 'O' && "NOW_PLAYING"@[2] == 'W',
        "POSITION"@.len() == 8 && "POSITION"@[0] == 'P' && "POSITION"@[1] == 'O' && "POSITION"@[2] == 'S',
        "SEEK"@.len() == 4 && "SEEK"@[0] == 'S' && "SEEK"@[1] == 'E' && "SEEK"@[2] == 'E',
        "SEARCH"@.len() == 6 && "SEARCH"@[0] == 'S' && "SEARCH"@[1] == 'E' && "SEARCH"@[2] == 'A',
        "LIKED"@.len() == 5 && "LIKED"@[0] == 'L' && "LIKED"@[1] == 'I' && "LIKED"@[2] == 'K',
        "PLAYLIST"@.len() == 8 && "PLAYLIST"@[0] == 'P' && "PLAYLIST"@[1] == 'L' && "PLAYLIST"@[2] == 'A',
        "PLAYLISTS"@.len() == 9 && "PLAYLISTS"@[0] == 'P' && "PLAYLISTS"@[1] == 'L' && "PLAYLISTS"@[2] == 'A',
        "VOL_UP"@.len() == 6 && "VOL_UP"@[0] == 'V' && "VOL_UP"@[1] == 'O' && "VOL_UP"@[2] == 'L',
        "VOL_DOWN"@.len() == 8 && "VOL_DOWN"@[0] == 'V' && "VOL_DOWN"@[1] == 'O' && "VOL_DOWN"@[2] == 'L',
        "SETVOL"@.len() == 6 && "SETVOL"@[0] == 'S' && "SETVOL"@[1] == 'E' && "SETVOL"@[2] == 'T',
        "GETVOL"@.len() == 6 && "GETVOL"@[0] == 'G' && "GETVOL"@[1] == 'E' && "GETVOL"@[2] == 'T',
        "QUIT"@.len() == 4 && "QUIT"@[0] == 'Q' && "QUIT"@[1] == 'U' && "QUIT"@[2] == 'I',
{
    reveal_strlit("LOAD");
    reveal_strlit("LOAD_LIKED");
    reveal_strlit("LOAD_PLAYLIST");
    reveal_strlit("LOAD_SEARCH");
    reveal_strlit("PLAY");
    reveal_strlit("PAUSE");
    reveal_strlit("STOP");
    reveal_strlit("NEXT");
    reveal_strlit("PREVIOUS");
    reveal_strlit("PLAYBACK_MODES");
    reveal_strlit("SET_SHUFFLE");
    reveal_strlit("SET_REPEAT");
    reveal_strlit("STATUS");
    reveal_strlit("QUEUE_STATUS");
    reveal_strlit("QUEUE_PAGE");
    reveal_strlit("NOW_PLAYING");
    reveal_strlit("POSITION");
    reveal_strlit("SEEK");
    reveal_strlit("SEARCH");
    reveal_strlit("LIKED");
    reveal_strlit("PLAYLIST");
    reveal_strlit("PLAYLISTS");
    reveal_strlit("VOL_UP");
    reveal_strlit("VOL_DOWN");
    reveal_strlit("SETVOL");
    reveal_strlit("GETVOL");
    reveal_strlit("QUIT");
}

/// The commands that drive the player do what they are called.
pub proof fn commands_drive_the_player(d: DaemonView, arg: Seq<char>, mode: Seq<char>, volume: u16)
    ensures
        obeyed(d, "PLAY"@, arg, mode, volume) == (
            d,
            OutcomeView::Answer(ReplyView { text: "OK play\n"@, act: ActView::Play }),
        ),
        obeyed(d, "PAUSE"@, arg, mode, volume) == (
            d,
            OutcomeView::Answer(ReplyView { text: "OK pause\n"@, act: ActView::Pause }),
        ),
        obeyed(d, "STOP"@, arg, mode, volume) == (
            DaemonView { queue: idle(), ..d },
            OutcomeView::Answer(ReplyView { text: "OK stop\n"@, act: ActView::Stop }),
        ),
        obeyed(d, "QUIT"@, arg, mode, volume).1 == OutcomeView::Answer(
            ReplyView { text: "OK bye\n"@, act: ActView::Quit },
        ),
        obeyed(d, "NEXT"@, arg, mode, volume).0 == stepped(d, true).0,
        obeyed(d, "NEXT"@, arg, mode, volume).1 == OutcomeView::Answer(stepped(d, true).1),
        obeyed(d, "PREVIOUS"@, arg, mode, volume).0 == stepped(d, false).0,
        obeyed(d, "PREVIOUS"@, arg, mode, volume).1 == OutcomeView::Answer(stepped(d, false).1),
        obeyed(d, "SET_SHUFFLE"@, arg, mode, volume).0 == shuffle_set(d, mode).0,
        obeyed(d, "SET_REPEAT"@, arg, mode, volume).0 == repeat_set(d, mode).0,
{
    lemma_command_words();
}

/// `LOAD` plays the one track with the given id and ends the queue; an id that is none
/// changes nothing.
pub proof fn load_plays_one_track(d: DaemonView, arg: Seq<char>, mode: Seq<char>, volume: u16)
    ensures
        ({
            let (after, outcome) = obeyed(d, "LOAD"@, arg, mode, volume);
            &&& outcome is Answer
            &&& after.modes == d.modes
            &&& after.cache == d.cache
            &&& match base62_id(arg) {
                Some(id) => after.queue == idle() && outcome->Answer_0.act == ActView::Load(id),
                None => after == d && outcome->Answer_0.act is Nothing,
            }
        }),
{
    lemma_command_words();
}

/// The volume keys move the volume by one step, or to the end; a step down takes back a
/// step up that did not reach it.
pub proof fn volume_moves_by_steps(d: DaemonView, arg: Seq<char>, mode: Seq<char>, volume: u16)
    ensures
        ({
            let up = obeyed(d, "VOL_UP"@, arg, mode, volume);
            let level = up.1->Answer_0.act->SetVolume_0;
            &&& up.0 == d
            &&& up.1 is Answer
            &&& up.1->Answer_0.act is SetVolume
            &&& level == volume + 3932 || (level == 65535 && volume + 3932 > 65535)
            &&& up.1->Answer_0.text == "OK vol "@ + decimal((level * 100 / 65535) as nat) + "\n"@
            &&& level == volume + 3932 ==> obeyed(d, "VOL_DOWN"@, arg, mode, level).1->Answer_0.act
                == ActView::SetVolume(volume)
        }),
        ({
            let down = obeyed(d, "VOL_DOWN"@, arg, mode, volume);
            let level = down.1->Answer_0.act->SetVolume_0;
            &&& down.0 == d
            &&& down.1 is Answer
            &&& down.1->Answer_0.act is SetVolume
            &&& level == volume - 3932 || (level == 0 && volume < 3932)
            &&& down.1->Answer_0.text == "OK vol "@ + decimal((level * 100 / 65535) as nat) + "\n"@
        }),
{
    lemma_command_words();
}

/// A percentage that `SETVOL` sets is the one that it answers, and the one that `GETVOL`
/// tells afterwards, or one less; anything above a hundred is refused.
pub proof fn set_volume_is_told(d: DaemonView, percent: nat, mode: Seq<char>, volume: u16)
    requires
        percent <= u32::MAX,
    ensures
        ({
            let set = obeyed(d, "SETVOL"@, decimal(percent), mode, volume);
            &&& set.0 == d
            &&& set.1 is Answer
            &&& percent > 100 ==> set.1->Answer_0.act is Nothing
            &&& percent <= 100 ==> {
                let level = set.1->Answer_0.act->SetVolume_0;
                &&& set.1->Answer_0.act is SetVolume
                &&& set.1->Answer_0.text == "OK vol "@ + decimal(percent) + "\n"@
                &&& percent == 0 ==> level == 0
                &&& percent == 100 ==> level == 65535
                &&& exists|told: nat|
                    (told == percent || told + 1 == percent) && obeyed(
                        d,
                        "GETVOL"@,
                        seq![],
                        mode,
                        level,
                    ).1 == OutcomeView::Answer(
                        ReplyView {
                            text: #[trigger] ("VOL "@ + decimal(told) + "\n"@),
                            act: ActView::Nothing,
                        },
                    )
            }
        }),
{
    lemma_command_words();
    decimal_reads_back(percent, u32::MAX as nat);
    if percent <= 100 {
        set_volume_reads_back(percent as int);
        let told = crate::daemon::volume::percent(level_of(percent as int)) as nat;
        assert(obeyed(d, "GETVOL"@, seq![], mode, level_of(percent as int) as u16).1
            == OutcomeView::Answer(
            ReplyView { text: "VOL "@ + decimal(told) + "\n"@, act: ActView::Nothing },
        ));
    }
}

/// A seek goes to the time asked for, or to the end of the track; without a track it goes
/// nowhere.
pub proof fn seek_goes_where_it_is_sent(d: DaemonView, ms: u32, mode: Seq<char>, volume: u16)
    ensures
        ({
            let (after, outcome) = obeyed(d, "SEEK"@, decimal(ms as nat), mode, volume);
            &&& after == d
            &&& outcome is Answer
            &&& match d.now_playing {
                Some(item) => {
                    let to = if ms <= item.duration_ms {
                        ms
                    } else {
                        item.duration_ms
                    };
                    outcome->Answer_0 == (ReplyView {
                        text: "OK seek "@ + decimal(to as nat) + "\n"@,
                        act: ActView::Seek(to),
                    })
                },
                None => outcome->Answer_0.act is Nothing,
            }
        }),
{
    lemma_command_words();
    decimal_reads_back(ms as nat, u32::MAX as nat);
}

/// The browse commands ask for what they name; a search of one word asks for that word,
/// and another word behind it comes behind a plus sign.
pub proof fn browsing_asks_for_what_it_names(
    d: DaemonView,
    arg: Seq<char>,
    mode: Seq<char>,
    volume: u16,
    first: Seq<char>,
    second: Seq<char>,
)
    requires
        is_word(first),
        is_word(second),
    ensures
        obeyed(d, "LIKED"@, arg, mode, volume) == (d, OutcomeView::List(ListingView::Liked)),
        obeyed(d, "PLAYLIST"@, arg, mode, volume) == (
            d,
            OutcomeView::List(ListingView::Playlist(arg)),
        ),
        obeyed(d, "PLAYLISTS"@, arg, mode, volume) == (d, OutcomeView::Profile),
        obeyed(d, "SEARCH"@, first, mode, volume) == (
            d,
            OutcomeView::List(ListingView::Search("spotify:search:"@ + first)),
        ),
        obeyed(d, "SEARCH"@, first + seq![' '] + second, mode, volume) == (
            d,
            OutcomeView::List(ListingView::Search("spotify:search:"@ + (first + "+"@ + second))),
        ),
        obeyed(d, "SEARCH"@, seq![], mode, volume).0 == d,
        obeyed(d, "SEARCH"@, seq![], mode, volume).1 is Answer,
{
    lemma_command_words();
    lemma_first_word(first, seq![]);
    lemma_first_word(second, seq![]);
    lemma_first_word(first, seq![' '] + second);
    lemma_words_behind_blank(second);
    assert(first + Seq::<char>::empty() =~= first);
    assert(second + Seq::<char>::empty() =~= second);
    assert(words(Seq::<char>::empty()) =~= seq![]);
    assert(words(first) =~= seq![first]);
    assert(words(second) =~= seq![second]);
    assert(first + (seq![' '] + second) =~= first + seq![' '] + second);
    let both = words(first + seq![' '] + second);
    assert(both =~= seq![first, second]);
    assert(both.drop_last() =~= seq![first]);
    assert(joined(seq![first], "+"@) == first);
}

/// A load that is asked for waits for its turn as it was asked for and is the latest one,
/// unless a later one has come in before; then it is answered and changes nothing.
pub proof fn load_waits_unless_it_is_stale(
    d: DaemonView,
    n: u64,
    list: Seq<char>,
    track: Seq<char>,
    mode: Seq<char>,
    volume: u16,
)
    requires
        is_word(list),
        is_word(track),
    ensures
        ({
            let arg = blank_joined(seq![decimal(n as nat), track]);
            let (after, outcome) = obeyed(d, "LOAD_LIKED"@, arg, mode, volume);
            is_taken_in(
                d,
                after,
                outcome,
                RequestView { source: SourceView::Liked, request_id: n, track_id: track },
            )
        }),
        ({
            let arg = blank_joined(seq![decimal(n as nat), track]);
            let (after, outcome) = obeyed(d, "LOAD_SEARCH"@, arg, mode, volume);
            is_taken_in(
                d,
                after,
                outcome,
                RequestView { source: SourceView::Search, request_id: n, track_id: track },
            )
        }),
        ({
            let arg = blank_joined(seq![decimal(n as nat), list, track]);
            let (after, outcome) = obeyed(d, "LOAD_PLAYLIST"@, arg, mode, volume);
            is_taken_in(
                d,
                after,
                outcome,
                RequestView { source: SourceView::Playlist(list), request_id: n, track_id: track },
            )
        }),
{
    lemma_command_words();
    lemma_decimal(n as nat);
    decimal_reads_back(n as nat, u64::MAX as nat);
    let two = seq![decimal(n as nat), track];
    let three = seq![decimal(n as nat), list, track];
    lemma_words_of_joined(two);
    lemma_words_of_joined(three);
}

/// Whether a request is waiting and the latest, or stale and answered.
pub open spec fn is_taken_in(
    d: DaemonView,
    after: DaemonView,
    outcome: OutcomeView,
    request: RequestView,
) -> bool {
    if request.request_id < d.latest_load_request {
        &&& after == d
        &&& outcome is Answer
        &&& outcome->Answer_0.act is Nothing
    } else {
        &&& after == (DaemonView { latest_load_request: request.request_id, ..d })
        &&& outcome == OutcomeView::Queue(request)
    }
}

/// A track that is not in the list as it is known makes the list be fetched, with nothing
/// changed; but a search is never fetched again, its answer is that the track is missing.
pub proof fn unknown_track_makes_its_list_be_fetched(d: DaemonView, request: RequestView)
    requires
        is_current(d, request.request_id),
        !remembered(d.cache, request.source).contains(request.track_id),
    ensures
        !(request.source is Search) ==> on_turn(d, request) == (d, None::<ReplyView>),
        request.source is Search ==> on_turn(d, request).0 == d && on_turn(d, request).1 is Some
            && on_turn(d, request).1->0.act is Nothing,
{
    lemma_place(remembered(d.cache, request.source), request.track_id);
}

/// A track is credited to its artists, in order and with a comma between each two, a local
/// file to whom it names, and an episode to its show.
pub proof fn credits_are_named(a: Seq<char>, b: Seq<char>)
    ensures
        credited(CreditsView::Track(seq![a])) == a,
        credited(CreditsView::Track(seq![a, b])) == a + ", "@ + b,
        credited(CreditsView::Local(Some(a))) == a,
        credited(CreditsView::Local(None)).len() == 0,
        credited(CreditsView::Episode(a)) == a,
{
    assert(seq![a, b].drop_last() =~= seq![a]);
    assert(joined(seq![a], ", "@) == a);
}

/// The artist of a track that starts is known by its credits, as far as they hold no
/// separator.
pub proof fn started_track_is_credited(d: DaemonView, event: EventView)
    requires
        event is TrackChanged,
        forall|i: int|
            0 <= i < credited(event->TrackChanged_0.credits).len() ==> {
                let c = #[trigger] credited(event->TrackChanged_0.credits)[i];
                c != '\t' && c != '\r' && c != '\n'
            },
    ensures
        followed(d, event).0.now_playing is Some,
        followed(d, event).0.now_playing->0.artist == credited(event->TrackChanged_0.credits),
{
    let artist = credited(event->TrackChanged_0.credits);
    assert(crate::daemon::browse::sanitized(artist) =~= artist);
}

/// The daemon starts with the modes that were kept, nothing queued and nothing known.
pub proof fn daemon_starts_silent(modes: PlaybackModes)
    ensures
        ({
            let d = fresh(modes);
            &&& d.queue == idle()
            &&& d.modes == modes
            &&& d.state == PlayState::Stopped
            &&& d.now_playing is None
            &&& d.position is None
            &&& d.latest_load_request == 0
            &&& d.unavailable == 0
            &&& remembered(d.cache, SourceView::Liked).len() == 0
            &&& remembered(d.cache, SourceView::Search).len() == 0
        }),
        idle().current() is None,
        idle().track_ids.len() == 0,
        idle().source is None,
{
}

/// No command changes what the player has reported, nor what was browsed.
pub proof fn commands_leave_what_is_known(
    d: DaemonView,
    cmd: Seq<char>,
    arg: Seq<char>,
    mode: Seq<char>,
    volume: u16,
)
    ensures
        leaves_what_is_known(d, obeyed(d, cmd, arg, mode, volume).0),
{
    lemma_loads_leave_what_is_known(d, arg);
    lemma_steps_and_modes_leave_what_is_known(d, mode);
    if cmd == "LOAD"@ {
    } else if cmd == "LOAD_LIKED"@ || cmd == "LOAD_PLAYLIST"@ || cmd == "LOAD_SEARCH"@ {
    } else if cmd == "NEXT"@ || cmd == "PREVIOUS"@ {
    } else if cmd == "SET_SHUFFLE"@ || cmd == "SET_REPEAT"@ {
    } else if cmd == "STOP"@ {
    } else {
        assert(obeyed(d, cmd, arg, mode, volume).0 == d);
    }
}

proof fn lemma_loads_leave_what_is_known(d: DaemonView, arg: Seq<char>)
    ensures
        leaves_what_is_known(d, load(d, arg).0),
        forall|request: Option<RequestView>, usage: Seq<char>|
            leaves_what_is_known(d, (#[trigger] enqueued(d, request, usage)).0),
{
}

proof fn lemma_steps_and_modes_leave_what_is_known(d: DaemonView, mode: Seq<char>)
    ensures
        leaves_what_is_known(d, stepped(d, true).0),
        leaves_what_is_known(d, stepped(d, false).0),
        leaves_what_is_known(d, shuffle_set(d, mode).0),
        leaves_what_is_known(d, repeat_set(d, mode).0),
{
}

/// Whether what the player has reported, and what was browsed, stays.
pub open spec fn leaves_what_is_known(d: DaemonView, after: DaemonView) -> bool {
    &&& after.state == d.state
    &&& after.now_playing == d.now_playing
    &&& after.position == d.position
    &&& after.cache == d.cache
    &&& after.unavailable == d.unavailable
}

/// A load that is not asked for with a number, the list where it takes one, and the track is
/// answered by an error and changes nothing.
pub proof fn malformed_load_changes_nothing(
    d: DaemonView,
    arg: Seq<char>,
    mode: Seq<char>,
    volume: u16,
)
    ensures
        words(arg).len() != 2 || number(words(arg)[0], u64::MAX as nat) is None ==> {
            &&& is_refused(d, obeyed(d, "LOAD_LIKED"@, arg, mode, volume))
            &&& is_refused(d, obeyed(d, "LOAD_SEARCH"@, arg, mode, volume))
        },
        words(arg).len() != 3 || number(words(arg)[0], u64::MAX as nat) is None ==> is_refused(
            d,
            obeyed(d, "LOAD_PLAYLIST"@, arg, mode, volume),
        ),
{
    lemma_command_words();
    reveal_strlit("ERR ");
    reveal_strlit("ERR LOAD_LIKED needs request_id and track_id\n");
    reveal_strlit("ERR LOAD_SEARCH needs request_id and track_id\n");
    reveal_strlit("ERR LOAD_PLAYLIST needs request_id, playlist_id, and track_id\n");
    assert("ERR LOAD_LIKED needs request_id and track_id\n"@.subrange(0, 4) =~= "ERR "@);
    assert("ERR LOAD_SEARCH needs request_id and track_id\n"@.subrange(0, 4) =~= "ERR "@);
    assert("ERR LOAD_PLAYLIST needs request_id, playlist_id, and track_id\n"@.subrange(0, 4)
        =~= "ERR "@);
}

/// Whether a command was refused: answered by an error, with nothing changed.
pub open spec fn is_refused(d: DaemonView, obeyed: (DaemonView, OutcomeView)) -> bool {
    &&& obeyed.0 == d
    &&& obeyed.1 is Answer
    &&& obeyed.1->Answer_0.act is Nothing
    &&& "ERR "@.is_prefix_of(obeyed.1->Answer_0.text)
}

/// A seek, a volume, a mode or a page that makes no sense is refused, and so is a search
/// for nothing.
pub proof fn nonsense_is_refused(d: DaemonView, arg: Seq<char>, mode: Seq<char>, volume: u16)
    ensures
        number(arg, u32::MAX as nat) is None ==> is_refused(d, obeyed(d, "SEEK"@, arg, mode, volume))
            && is_refused(d, obeyed(d, "SETVOL"@, arg, mode, volume)),
        mode != "ON"@ && mode != "OFF"@ ==> is_refused(
            d,
            obeyed(d, "SET_SHUFFLE"@, arg, mode, volume),
        ),
        mode != "OFF"@ && mode != "ALL"@ && mode != "ONE"@ ==> is_refused(
            d,
            obeyed(d, "SET_REPEAT"@, arg, mode, volume),
        ),
        words(arg).len() != 2 ==> is_refused(d, obeyed(d, "QUEUE_PAGE"@, arg, mode, volume)),
        is_refused(d, obeyed(d, "SEARCH"@, seq![], mode, volume)),
{
    lemma_command_words();
    reveal_strlit("ERR ");
    reveal_strlit("ERR SEEK needs milliseconds\n");
    reveal_strlit("ERR SETVOL needs 0-100\n");
    reveal_strlit("ERR SET_SHUFFLE needs ON or OFF\n");
    reveal_strlit("ERR SET_REPEAT needs OFF, ALL, or ONE\n");
    reveal_strlit("ERR QUEUE_PAGE needs offset and limit 1-9\n");
    reveal_strlit("ERR empty query\n");
    assert("ERR SEEK needs milliseconds\n"@.subrange(0, 4) =~= "ERR "@);
    assert("ERR SETVOL needs 0-100\n"@.subrange(0, 4) =~= "ERR "@);
    assert("ERR SET_SHUFFLE needs ON or OFF\n"@.subrange(0, 4) =~= "ERR "@);
    assert("ERR SET_REPEAT needs OFF, ALL, or ONE\n"@.subrange(0, 4) =~= "ERR "@);
    assert("ERR QUEUE_PAGE needs offset and limit 1-9\n"@.subrange(0, 4) =~= "ERR "@);
    assert("ERR empty query\n"@.subrange(0, 4) =~= "ERR "@);
}

/// Whether a word in capitals is a command.
pub open spec fn is_command(cmd: Seq<char>) -> bool {
    ||| cmd == "LOAD"@ || cmd == "LOAD_LIKED"@ || cmd == "LOAD_PLAYLIST"@ || cmd == "LOAD_SEARCH"@
    ||| cmd == "PLAY"@ || cmd == "PAUSE"@ || cmd == "STOP"@ || cmd == "NEXT"@ || cmd == "PREVIOUS"@
    ||| cmd == "PLAYBACK_MODES"@ || cmd == "SET_SHUFFLE"@ || cmd == "SET_REPEAT"@
    ||| cmd == "STATUS"@ || cmd == "QUEUE_STATUS"@ || cmd == "QUEUE_PAGE"@
    ||| cmd == "NOW_PLAYING"@ || cmd == "POSITION"@ || cmd == "SEEK"@
    ||| cmd == "SEARCH"@ || cmd == "LIKED"@ || cmd == "PLAYLIST"@ || cmd == "PLAYLISTS"@
    ||| cmd == "VOL_UP"@ || cmd == "VOL_DOWN"@ || cmd == "SETVOL"@ || cmd == "GETVOL"@
    ||| cmd == "QUIT"@
}

/// A word that is no command is refused.
pub proof fn unknown_word_is_refused(
    d: DaemonView,
    cmd: Seq<char>,
    arg: Seq<char>,
    mode: Seq<char>,
    volume: u16,
)
    requires
        !is_command(cmd),
    ensures
        is_refused(d, obeyed(d, cmd, arg, mode, volume)),
{
    reveal_strlit("ERR ");
    reveal_strlit("ERR unknown command '");
    assert(("ERR unknown command '"@ + cmd + "'\n"@).subrange(0, 4) =~= "ERR "@);
}

} // verus!
