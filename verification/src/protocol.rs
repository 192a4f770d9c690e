//! Laws of the line protocol: what the daemon answers, the interface reads back.
use crate::daemon::browse::{listing_text, result_line, result_lines, sanitized, DetailsView};
use crate::daemon::control::{
    command_parts, now_playing_text, obeyed, playlist_request, position_text, stepped,
    track_request,
};
use crate::daemon::laws::lemma_command_words;
use crate::daemon::load::RequestView;
use crate::daemon::modes::{modes_reply, PlaybackModes, RepeatMode};
use crate::daemon::profile::{
    chained, field, listed, playlist_line, playlist_lines, profile_text, text_field, text_or, Json,
};
use crate::daemon::queue::{
    item_line, item_lines, page_end, page_request, page_start, queue_page_reply,
    queue_status_reply, source_label, QueueView, SourceView,
};
use crate::daemon::state::{state_label, DaemonView, NowPlayingView, PlayState};
use crate::media::{base62_digit, base62_id};
use crate::text::{
    blank_joined, decimal, decimal_reads_back, is_white, is_word, joined, lemma_blank_joined_push,
    lemma_cut, lemma_decimal, lemma_first_line, lemma_lines_concat, lemma_lines_ended,
    lemma_one_line, lemma_trim_behind, lemma_trim_line_end, lemma_trimmed_is, lemma_without_prefix,
    lemma_word_has_no, lemma_words_of_joined, lines, number, trimmed, without_cr, without_prefix,
};
use crate::ui::answers::{
    diagnostics_answered, modes_answered, page_command, refresh_answered, sound_answered,
    step_answered,
};
use crate::ui::layout::touches_tile;
use crate::ui::replies::{
    all_listed_in, has_line_with, item_in, items_in, listed_in, modes_in, now_playing_in,
    playing_fields, position_in, queue_page_in, queue_status_in, source_named, status_in,
    status_numbered, status_of_playlist, status_rest, volume_in, ItemView, ListedView, PageView,
    PlaybackState, ShownModes, StatusView, VISIBLE_ROWS,
};
use crate::ui::screen::{tile_label, tile_marked};
use crate::ui::state::{AppView, UiView};
use crate::ui::touch::{load_command, seek_command, touched};
use vstd::prelude::*;

verus! {

/// An answer that ends in a line end reads as the line.
proof fn lemma_answer(line: Seq<char>)
    requires
        line.len() > 0,
        !is_white(line[0]),
        !is_white(line.last()),
    ensures
        trimmed(line + "\n"@) == line,
{
    reveal_strlit("\n");
    assert("\n"@ =~= seq!['\n']);
    lemma_trim_line_end(line);
}

/// Three texts behind a head are one text behind it.
proof fn lemma_group(head: Seq<char>, a: Seq<char>, b: Seq<char>, c: Seq<char>)
    ensures
        head + a + b + c == head + (a + b + c),
{
    assert(head + a + b + c =~= head + (a + b + c));
}

/// Five texts behind a head are one text behind it.
proof fn lemma_group_five(
    head: Seq<char>,
    a: Seq<char>,
    b: Seq<char>,
    c: Seq<char>,
    d: Seq<char>,
    e: Seq<char>,
)
    ensures
        head + a + b + c + d + e == head + (a + b + c + d + e),
{
    assert(head + a + b + c + d + e =~= head + (a + b + c + d + e));
}

/// A prefix and a number behind it.
proof fn lemma_numbered_answer(prefix: Seq<char>, n: nat, max: nat)
    requires
        prefix.len() > 0,
        !is_white(prefix[0]),
        n <= max,
    ensures
        trimmed(prefix + decimal(n) + "\n"@) == prefix + decimal(n),
        without_prefix(prefix + decimal(n), prefix) == Some(decimal(n)),
        trimmed(decimal(n)) == decimal(n),
        number(decimal(n), max) == Some(n),
{
    lemma_decimal(n);
    let line = prefix + decimal(n);
    assert(line[0] == prefix[0]);
    assert(line.last() == decimal(n).last());
    lemma_answer(line);
    lemma_without_prefix(prefix, decimal(n));
    lemma_trimmed_is(decimal(n));
    decimal_reads_back(n, max);
}

/// The percentage that the daemon answers is the one that is read.
pub proof fn volume_answer_reads_back(percent: u8)
    requires
        percent <= 100,
    ensures
        volume_in(trimmed("OK vol "@ + decimal(percent as nat) + "\n"@)) == Some(percent),
{
    reveal_strlit("OK vol ");
    lemma_numbered_answer("OK vol "@, percent as nat, 255);
}

/// The position that the daemon answers is the one that is read.
pub proof fn position_answer_reads_back(position: Option<u32>)
    ensures
        position_in(trimmed(position_text(position))) == Some(position),
{
    reveal_strlit("POSITION ");
    reveal_strlit("POSITION NONE");
    match position {
        Some(ms) => {
            let line = "POSITION "@ + decimal(ms as nat);
            lemma_numbered_answer("POSITION "@, ms as nat, u32::MAX as nat);
            lemma_decimal(ms as nat);
            if line == "POSITION NONE"@ {
                assert(line[9] == decimal(ms as nat)[0]);
                assert("POSITION NONE"@[9] == 'N');
            }
        },
        None => {
            reveal_strlit("POSITION NONE\n");
            reveal_strlit("\n");
            assert("POSITION NONE\n"@ =~= "POSITION NONE"@ + "\n"@);
            lemma_answer("POSITION NONE"@);
        },
    }
}

/// The state as the interface knows it.
pub open spec fn shown_state(state: PlayState) -> PlaybackState {
    match state {
        PlayState::Stopped => PlaybackState::Stopped,
        PlayState::Loading => PlaybackState::Loading,
        PlayState::Playing => PlaybackState::Playing,
        PlayState::Paused => PlaybackState::Paused,
        PlayState::Error => PlaybackState::Error,
    }
}

/// The state that the daemon answers is the one that is read.
pub proof fn status_answer_reads_back(state: PlayState)
    ensures
        status_in(trimmed("STATUS "@ + state_label(state) + "\n"@)) == Some(shown_state(state)),
{
    reveal_strlit("STATUS ");
    reveal_strlit("STOPPED");
    reveal_strlit("LOADING");
    reveal_strlit("PLAYING");
    reveal_strlit("PAUSED");
    reveal_strlit("ERROR");
    reveal_strlit("STATUS STOPPED");
    reveal_strlit("STATUS LOADING");
    reveal_strlit("STATUS PLAYING");
    reveal_strlit("STATUS PAUSED");
    reveal_strlit("STATUS ERROR");
    let line = "STATUS "@ + state_label(state);
    lemma_answer(line);
    assert("STATUS STOPPED"@[7] == 'S' && "STATUS LOADING"@[7] == 'L' && "STATUS PLAYING"@[7] == 'P');
    assert("STATUS PLAYING"@[8] == 'L' && "STATUS PAUSED"@[8] == 'A' && "STATUS PAUSED"@[7] == 'P');
    assert("STATUS ERROR"@[7] == 'E');
    match state {
        PlayState::Stopped => assert(line =~= "STATUS STOPPED"@),
        PlayState::Loading => assert(line =~= "STATUS LOADING"@),
        PlayState::Playing => assert(line =~= "STATUS PLAYING"@),
        PlayState::Paused => assert(line =~= "STATUS PAUSED"@),
        PlayState::Error => assert(line =~= "STATUS ERROR"@),
    }
}

/// The modes that the daemon answers are the ones that are read.
pub proof fn modes_answer_reads_back(modes: PlaybackModes)
    ensures
        modes_in(trimmed(modes_reply(modes))) == Some(
            ShownModes { shuffle: modes.shuffle, repeat: modes.repeat },
        ),
{
    reveal_strlit("MODES SHUFFLE ");
    reveal_strlit(" REPEAT ");
    reveal_strlit("MODES");
    reveal_strlit("SHUFFLE");
    reveal_strlit("REPEAT");
    reveal_strlit("ON");
    reveal_strlit("OFF");
    reveal_strlit("ALL");
    reveal_strlit("ONE");
    let on = crate::daemon::modes::on_off_label(modes.shuffle);
    let repeat = crate::daemon::modes::repeat_label(modes.repeat);
    let line = "MODES SHUFFLE "@ + on + " REPEAT "@ + repeat;
    lemma_answer(line);
    let one = seq!["MODES"@];
    let two = one.push("SHUFFLE"@);
    let three = two.push(on);
    let four = three.push("REPEAT"@);
    let parts = four.push(repeat);
    lemma_blank_joined_push(one, "SHUFFLE"@);
    lemma_blank_joined_push(two, on);
    lemma_blank_joined_push(three, "REPEAT"@);
    lemma_blank_joined_push(four, repeat);
    assert(blank_joined(parts) =~= line);
    lemma_words_of_joined(parts);
    assert("ON"@.len() == 2 && "OFF"@.len() == 3);
    assert("OFF"@[0] == 'O' && "ALL"@[0] == 'A' && "ONE"@[1] == 'N' && "OFF"@[1] == 'F');
}

/// A track that plays with the white space around its fields taken off.
pub open spec fn trimmed_item(item: NowPlayingView) -> NowPlayingView {
    NowPlayingView {
        id: trimmed(item.id),
        title: trimmed(item.title),
        artist: trimmed(item.artist),
        duration_ms: item.duration_ms,
    }
}

/// The fields of a track that plays, with a tab between each two.
#[verifier::opaque]
spec fn playing_body(item: NowPlayingView) -> Seq<char> {
    item.id + seq!['\t'] + (item.title + seq!['\t'] + (item.artist + seq!['\t'] + decimal(
        item.duration_ms as nat,
    )))
}

proof fn lemma_playing_text(item: NowPlayingView)
    ensures
        now_playing_text(Some(item)) == "NOW_PLAYING "@ + playing_body(item) + "\n"@,
{
    reveal(playing_body);
    reveal_strlit("\t");
    assert("\t"@ =~= seq!['\t']);
    let head = "NOW_PLAYING "@;
    let tab = "\t"@;
    let digits = decimal(item.duration_ms as nat);
    let third = item.artist + tab + digits;
    let second = item.title + tab + third;
    lemma_group(head + item.id + tab + item.title + tab, item.artist, tab, digits);
    lemma_group(head + item.id + tab, item.title, tab, third);
    lemma_group(head, item.id, tab, second);
}

proof fn lemma_playing_body(item: NowPlayingView)
    requires
        !item.id.contains('\t'),
        !item.title.contains('\t'),
        !item.artist.contains('\t'),
        trimmed(item.id).len() > 0,
    ensures
        playing_fields(playing_body(item)) == Some(trimmed_item(item)),
        playing_body(item).len() > 0,
        !is_white(playing_body(item).last()),
        playing_body(item).contains('\t'),
{
    reveal(playing_body);
    let digits = decimal(item.duration_ms as nat);
    lemma_decimal(item.duration_ms as nat);
    decimal_reads_back(item.duration_ms as nat, u32::MAX as nat);
    lemma_trimmed_is(digits);
    let third = item.artist + seq!['\t'] + digits;
    let second = item.title + seq!['\t'] + third;
    let body = playing_body(item);
    lemma_cut(item.id, '\t', second);
    lemma_cut(item.title, '\t', third);
    lemma_cut(item.artist, '\t', digits);
    assert(third.last() == digits.last());
    assert(second.last() == third.last());
    assert(body.last() == second.last());
    assert(body[item.id.len() as int] == '\t');
}

/// The track that the daemon answers is the one that is read, its fields trimmed, as
/// long as no field holds a tab and the id is not blank.
pub proof fn now_playing_answer_reads_back(item: NowPlayingView)
    requires
        !item.id.contains('\t'),
        !item.title.contains('\t'),
        !item.artist.contains('\t'),
        trimmed(item.id).len() > 0,
    ensures
        now_playing_in(trimmed(now_playing_text(Some(item)))) == Some(Some(trimmed_item(item))),
{
    reveal_strlit("NOW_PLAYING ");
    reveal_strlit("NOW_PLAYING NONE");
    let head = "NOW_PLAYING "@;
    let body = playing_body(item);
    lemma_playing_text(item);
    lemma_playing_body(item);
    lemma_prefixed_answer(head, body);
    let k = choose|k: int| 0 <= k < body.len() && body[k] == '\t';
    let line = head + body;
    assert(line[12 + k] == '\t');
    if line == "NOW_PLAYING NONE"@ {
        assert("NOW_PLAYING NONE"@[12 + k] == '\t');
        assert(false);
    }
}

/// That nothing plays is read as well.
pub proof fn silence_reads_back()
    ensures
        now_playing_in(trimmed(now_playing_text(None))) == Some(None::<NowPlayingView>),
{
    reveal_strlit("NOW_PLAYING NONE");
    reveal_strlit("NOW_PLAYING NONE\n");
    reveal_strlit("\n");
    assert("NOW_PLAYING NONE\n"@ =~= "NOW_PLAYING NONE"@ + "\n"@);
    lemma_answer("NOW_PLAYING NONE"@);
}

/// Whether the ids in a queue hold no white space, so that they stay one word each.
pub open spec fn ids_are_words(q: QueueView) -> bool {
    &&& forall|i: int| 0 <= i < q.track_ids.len() ==> is_word(#[trigger] q.track_ids[i])
    &&& match q.source {
        Some(SourceView::Playlist(id)) => is_word(id),
        _ => true,
    }
}

/// What `QUEUE_STATUS` reports of a queue.
pub open spec fn status_of(q: QueueView) -> Option<StatusView> {
    match q.current_index {
        Some(index) => Some(
            StatusView {
                source: q.source->0,
                request_id: q.request_id,
                index,
                length: q.track_ids.len() as usize,
                track_id: q.track_ids[index as int],
            },
        ),
        None => None,
    }
}

proof fn lemma_status_rest(source: SourceView, request_id: u64, index: usize, len: usize, track: Seq<
    char,
>)
    requires
        is_word(track),
        index < len,
    ensures
        status_rest(
            source,
            request_id,
            decimal(index as nat) + " "@ + decimal(len as nat) + " "@ + track,
        ) == Some(StatusView { source, request_id, index, length: len, track_id: track }),
{
    reveal_strlit(" ");
    assert(" "@ =~= seq![' ']);
    let behind = decimal(len as nat) + seq![' '] + track;
    let rest = decimal(index as nat) + seq![' '] + behind;
    assert(decimal(index as nat) + " "@ + decimal(len as nat) + " "@ + track =~= rest);
    lemma_decimal(index as nat);
    lemma_decimal(len as nat);
    lemma_word_has_no(decimal(index as nat), ' ');
    lemma_word_has_no(decimal(len as nat), ' ');
    lemma_cut(decimal(index as nat), ' ', behind);
    lemma_cut(decimal(len as nat), ' ', track);
    decimal_reads_back(index as nat, usize::MAX as nat);
    decimal_reads_back(len as nat, usize::MAX as nat);
    lemma_trimmed_is(track);
}

/// An answer in one line, with a prefix to tell it by.
proof fn lemma_prefixed_answer(prefix: Seq<char>, rest: Seq<char>)
    requires
        prefix.len() > 0,
        !is_white(prefix[0]),
        rest.len() > 0,
        !is_white(rest.last()),
    ensures
        trimmed(prefix + rest + "\n"@) == prefix + rest,
        without_prefix(prefix + rest, prefix) == Some(rest),
{
    let line = prefix + rest;
    assert(line[0] == prefix[0]);
    assert(line.last() == rest.last());
    lemma_answer(line);
    lemma_without_prefix(prefix, rest);
}

/// A text is not what starts with another character at some place.
proof fn lemma_other_prefix(s: Seq<char>, p: Seq<char>, n: int)
    requires
        0 <= n < s.len(),
        n < p.len(),
        s[n] != p[n],
    ensures
        without_prefix(s, p) is None,
        s != p,
{
    if p.is_prefix_of(s) {
        assert(s.subrange(0, p.len() as int)[n] == s[n]);
    }
}

/// How the answer to `QUEUE_STATUS` starts for a source.
spec fn status_prefix(source: SourceView) -> Seq<char> {
    match source {
        SourceView::Liked => "QUEUE LIKED "@,
        SourceView::Playlist(_) => "QUEUE PLAYLIST "@,
        SourceView::Search => "QUEUE SEARCH "@,
    }
}

/// The place in a queue as the answer to `QUEUE_STATUS` ends.
#[verifier::opaque]
spec fn status_tail(q: QueueView) -> Seq<char> {
    let index = q.current_index->0;
    decimal(index as nat) + " "@ + decimal(q.track_ids.len()) + " "@ + q.track_ids[index as int]
}

/// The answer to `QUEUE_STATUS` behind its prefix.
#[verifier::opaque]
spec fn status_body(q: QueueView) -> Seq<char> {
    match q.source->0 {
        SourceView::Playlist(id) => decimal(q.request_id as nat) + " "@ + id + " "@ + status_tail(q),
        _ => decimal(q.request_id as nat) + " "@ + status_tail(q),
    }
}

proof fn lemma_status_text(q: QueueView)
    requires
        q.current_index is Some,
        q.source is Some,
    ensures
        queue_status_reply(q) == status_prefix(q.source->0) + status_body(q) + "\n"@,
{
    reveal(status_tail);
    reveal(status_body);
    let index = q.current_index->0;
    let digits = decimal(q.request_id as nat);
    let prefix = status_prefix(q.source->0);
    let a = decimal(index as nat);
    let b = decimal(q.track_ids.len());
    let c = q.track_ids[index as int];
    match q.source->0 {
        SourceView::Playlist(id) => {
            lemma_group_five(prefix + digits + " "@ + id + " "@, a, " "@, b, " "@, c);
            lemma_group_five(prefix, digits, " "@, id, " "@, status_tail(q));
        },
        _ => {
            lemma_group_five(prefix + digits + " "@, a, " "@, b, " "@, c);
            lemma_group(prefix, digits, " "@, status_tail(q));
        },
    }
}

proof fn lemma_status_body(q: QueueView)
    requires
        q.wf(),
        ids_are_words(q),
        q.current_index is Some,
    ensures
        match q.source->0 {
            SourceView::Playlist(_) => status_of_playlist(status_body(q)) == status_of(q),
            source => status_numbered(source, status_body(q)) == status_of(q),
        },
        status_body(q).len() > 0,
        !is_white(status_body(q).last()),
{
    reveal_strlit(" ");
    assert(" "@ =~= seq![' ']);
    let index = q.current_index->0;
    assert(q.play_order[q.order_position->0 as int] == index);
    let track = q.track_ids[index as int];
    assert(is_word(track));
    let tail = status_tail(q);
    assert(tail.len() > 0 && tail.last() == track.last()) by {
        reveal(status_tail);
    }
    let digits = decimal(q.request_id as nat);
    assert(status_rest(q.source->0, q.request_id, tail) == status_of(q)) by {
        reveal(status_tail);
        lemma_status_rest(q.source->0, q.request_id, index, q.track_ids.len() as usize, track);
    }
    lemma_decimal(q.request_id as nat);
    lemma_word_has_no(digits, ' ');
    decimal_reads_back(q.request_id as nat, u64::MAX as nat);
    reveal(status_body);
    match q.source->0 {
        SourceView::Playlist(id) => {
            let behind = id + seq![' '] + tail;
            lemma_word_has_no(id, ' ');
            lemma_cut(id, ' ', tail);
            lemma_cut(digits, ' ', behind);
            lemma_trimmed_is(id);
            lemma_group(digits + " "@, id, " "@, tail);
        },
        _ => {
            lemma_cut(digits, ' ', tail);
        },
    }
}

/// The place in the queue that the daemon answers is the one that is read.
pub proof fn queue_status_answer_reads_back(q: QueueView)
    requires
        q.wf(),
        ids_are_words(q),
    ensures
        queue_status_in(trimmed(queue_status_reply(q))) == Some(status_of(q)),
{
    reveal_strlit("QUEUE NONE");
    reveal_strlit("QUEUE LIKED ");
    reveal_strlit("QUEUE PLAYLIST ");
    reveal_strlit("QUEUE SEARCH ");
    let none = "QUEUE NONE"@;
    let liked = "QUEUE LIKED "@;
    let playlist = "QUEUE PLAYLIST "@;
    let search = "QUEUE SEARCH "@;
    assert(none[6] == 'N' && liked[6] == 'L' && playlist[6] == 'P' && search[6] == 'S');
    if q.current_index is None {
        reveal_strlit("QUEUE NONE\n");
        reveal_strlit("\n");
        assert("QUEUE NONE\n"@ =~= none + "\n"@);
        lemma_answer(none);
    } else {
        let prefix = status_prefix(q.source->0);
        let body = status_body(q);
        lemma_status_text(q);
        lemma_status_body(q);
        lemma_prefixed_answer(prefix, body);
        let line = prefix + body;
        assert(line[6] == prefix[6]);
        lemma_other_prefix(line, none, 6);
        if !(q.source->0 is Liked) {
            lemma_other_prefix(line, liked, 6);
        }
        if q.source->0 is Search {
            lemma_other_prefix(line, playlist, 6);
        }
    }
}

/// The turn at a position, as a page lists it.
pub open spec fn item_of(q: QueueView, position: int) -> ItemView {
    ItemView {
        position: position as usize,
        source_index: q.play_order[position],
        track_id: q.track_ids[q.play_order[position] as int],
    }
}

/// The turns from one position up to another.
pub open spec fn items_of(q: QueueView, start: int, end: int) -> Seq<ItemView> {
    Seq::new((end - start) as nat, |i: int| item_of(q, start + i))
}

/// What a page reports of a queue.
pub open spec fn page_of(q: QueueView, offset: nat, limit: nat) -> Option<PageView> {
    match q.order_position {
        Some(position) => Some(
            PageView {
                source: q.source->0,
                current_position: position,
                total: q.play_order.len() as usize,
                start: page_start(q, offset) as usize,
                items: items_of(q, page_start(q, offset), page_end(q, offset, limit)),
            },
        ),
        None => None,
    }
}

/// The line of a turn reads back.
proof fn lemma_item(q: QueueView, position: int)
    requires
        q.wf(),
        ids_are_words(q),
        0 <= position < q.play_order.len(),
    ensures
        lines(item_line(q, position)).len() == 1,
        item_in(lines(item_line(q, position))[0], q.play_order.len()) == Some(item_of(q, position)),
        item_line(q, position).len() > 0,
        item_line(q, position).last() == '\n',
        item_line(q, position).len() >= 2,
        !is_white(item_line(q, position)[item_line(q, position).len() - 2]),
{
    reveal_strlit(" ");
    reveal_strlit("ITEM ");
    reveal_strlit("ITEM");
    reveal_strlit("\n");
    assert(q.current_index is Some);
    let index = q.play_order[position];
    let track = q.track_ids[index as int];
    assert(is_word(track));
    lemma_decimal(position as nat);
    lemma_decimal(index as nat);
    let one = seq!["ITEM"@];
    let two = one.push(decimal(position as nat));
    let three = two.push(decimal(index as nat));
    let parts = three.push(track);
    lemma_blank_joined_push(one, decimal(position as nat));
    lemma_blank_joined_push(two, decimal(index as nat));
    lemma_blank_joined_push(three, track);
    let line = blank_joined(parts);
    assert(item_line(q, position) =~= line + seq!['\n']);
    lemma_words_of_joined(parts);
    assert(line.last() == track.last());
    assert(!line.contains('\n')) by {
        lemma_word_has_no(decimal(position as nat), '\n');
        lemma_word_has_no(decimal(index as nat), '\n');
        lemma_word_has_no(track, '\n');
        assert(!"ITEM"@.contains('\n'));
        lemma_no_line_end(one, decimal(position as nat));
        lemma_no_line_end(two, decimal(index as nat));
        lemma_no_line_end(three, track);
    }
    lemma_one_line(line);
    decimal_reads_back(position as nat, usize::MAX as nat);
    decimal_reads_back(index as nat, usize::MAX as nat);
    assert(item_line(q, position)[item_line(q, position).len() - 2] == line.last());
}

proof fn lemma_no_line_end(parts: Seq<Seq<char>>, text: Seq<char>)
    requires
        parts.len() > 0,
        !blank_joined(parts).contains('\n'),
        !text.contains('\n'),
    ensures
        !blank_joined(parts.push(text)).contains('\n'),
{
    lemma_blank_joined_push(parts, text);
    let s = blank_joined(parts.push(text));
    let a = blank_joined(parts);
    assert forall|i: int| 0 <= i < s.len() implies s[i] != '\n' by {
        if i < a.len() {
            assert(a.contains(a[i]));
        } else if i > a.len() {
            assert(s[i] == text[i - a.len() - 1]);
            assert(text.contains(text[i - a.len() - 1]));
        }
    }
}

/// The lines of several turns read back.
proof fn lemma_items(q: QueueView, start: int, end: int)
    requires
        q.wf(),
        ids_are_words(q),
        0 <= start <= end <= q.play_order.len(),
    ensures
        items_in(lines(item_lines(q, start, end)), q.play_order.len()) == Some(
            items_of(q, start, end),
        ),
        item_lines(q, start, end).len() > 0 ==> item_lines(q, start, end).last() == '\n',
        start < end ==> item_lines(q, start, end).len() >= 2 && !is_white(
            item_lines(q, start, end)[item_lines(q, start, end).len() - 2],
        ),
    decreases end - start,
{
    let total = q.play_order.len();
    if start < end {
        lemma_items(q, start, end - 1);
        lemma_item(q, end - 1);
        let a = item_lines(q, start, end - 1);
        let b = item_line(q, end - 1);
        lemma_lines_concat(a, b);
        let all = lines(a + b);
        assert(all.drop_last() =~= lines(a));
        assert(all.last() == lines(b)[0]);
        assert(items_of(q, start, end) =~= items_of(q, start, end - 1).push(item_of(q, end - 1)));
        assert((a + b).last() == b.last());
        assert((a + b)[(a + b).len() - 2] == b[b.len() - 2]);
    } else {
        assert(lines(item_lines(q, start, end)) =~= seq![]);
        assert(items_of(q, start, end) =~= seq![]);
    }
}

/// The label of a source reads back.
proof fn lemma_source_label(source: SourceView)
    requires
        source matches SourceView::Playlist(id) ==> is_word(id),
    ensures
        is_word(source_label(source)),
        source_named(source_label(source)) == Some(source),
{
    reveal_strlit("LIKED");
    reveal_strlit("SEARCH");
    reveal_strlit("PLAYLIST:");
    assert("LIKED"@[0] == 'L' && "SEARCH"@[0] == 'S' && "PLAYLIST:"@[0] == 'P');
    match source {
        SourceView::Playlist(id) => {
            let label = "PLAYLIST:"@ + id;
            assert(label[0] == 'P');
            lemma_without_prefix("PLAYLIST:"@, id);
            assert forall|i: int| 0 <= i < label.len() implies !is_white(#[trigger] label[i]) by {
                if i >= 9 {
                    assert(label[i] == id[i - 9]);
                }
            }
        },
        _ => {},
    }
}

/// The words of the head line of a page.
spec fn head_words(q: QueueView, offset: nat, limit: nat) -> Seq<Seq<char>> {
    seq!["QUEUE_PAGE"@].push(source_label(q.source->0)).push(decimal(q.request_id as nat)).push(
        decimal(q.order_position->0 as nat),
    ).push(decimal(q.play_order.len())).push(decimal(page_start(q, offset) as nat)).push(
        decimal((page_end(q, offset, limit) - page_start(q, offset)) as nat),
    )
}

/// The words of a head line are words.
proof fn lemma_head_words(q: QueueView, offset: nat, limit: nat)
    requires
        q.wf(),
        ids_are_words(q),
        q.current_index is Some,
    ensures
        forall|i: int| 0 <= i < 7 ==> is_word(#[trigger] head_words(q, offset, limit)[i]),
{
    reveal_strlit("QUEUE_PAGE");
    lemma_source_label(q.source->0);
    lemma_decimal(q.request_id as nat);
    lemma_decimal(q.order_position->0 as nat);
    lemma_decimal(q.play_order.len());
    lemma_decimal(page_start(q, offset) as nat);
    lemma_decimal((page_end(q, offset, limit) - page_start(q, offset)) as nat);
}

/// Words in a line hold no line end.
proof fn lemma_joined_is_one_line(parts: Seq<Seq<char>>)
    requires
        parts.len() > 0,
        forall|i: int| 0 <= i < parts.len() ==> is_word(#[trigger] parts[i]),
    ensures
        !blank_joined(parts).contains('\n'),
        blank_joined(parts).len() > 0,
        blank_joined(parts)[0] == parts[0][0],
        blank_joined(parts).last() == parts.last().last(),
    decreases parts.len(),
{
    lemma_word_has_no(parts.last(), '\n');
    if parts.len() > 1 {
        let front = parts.drop_last();
        assert(parts =~= front.push(parts.last()));
        assert forall|i: int| 0 <= i < front.len() implies is_word(#[trigger] front[i]) by {
            assert(front[i] == parts[i]);
        }
        lemma_joined_is_one_line(front);
        lemma_no_line_end(front, parts.last());
        lemma_blank_joined_push(front, parts.last());
    } else {
        assert(parts.last() == parts[0]);
    }
}

/// A page is its head line and the lines of its turns.
proof fn lemma_page_text(q: QueueView, offset: nat, limit: nat)
    requires
        q.wf(),
        q.current_index is Some,
    ensures
        queue_page_reply(q, offset, limit) == blank_joined(head_words(q, offset, limit)) + seq!['\n']
            + item_lines(q, page_start(q, offset), page_end(q, offset, limit)),
{
    reveal_strlit(" ");
    reveal_strlit("QUEUE_PAGE ");
    reveal_strlit("QUEUE_PAGE");
    reveal_strlit("\n");
    assert(" "@ =~= seq![' ']);
    assert("\n"@ =~= seq!['\n']);
    assert("QUEUE_PAGE "@ =~= "QUEUE_PAGE"@ + seq![' ']);
    let w1 = source_label(q.source->0);
    let w2 = decimal(q.request_id as nat);
    let w3 = decimal(q.order_position->0 as nat);
    let w4 = decimal(q.play_order.len());
    let w5 = decimal(page_start(q, offset) as nat);
    let w6 = decimal((page_end(q, offset, limit) - page_start(q, offset)) as nat);
    let p1 = seq!["QUEUE_PAGE"@];
    lemma_blank_joined_push(p1, w1);
    lemma_blank_joined_push(p1.push(w1), w2);
    lemma_blank_joined_push(p1.push(w1).push(w2), w3);
    lemma_blank_joined_push(p1.push(w1).push(w2).push(w3), w4);
    lemma_blank_joined_push(p1.push(w1).push(w2).push(w3).push(w4), w5);
    lemma_blank_joined_push(p1.push(w1).push(w2).push(w3).push(w4).push(w5), w6);
    assert(blank_joined(p1) == "QUEUE_PAGE"@);
}

/// A page is read line by line: its head, then its turns.
proof fn lemma_page_lines(q: QueueView, offset: nat, limit: nat)
    requires
        q.wf(),
        ids_are_words(q),
        q.current_index is Some,
    ensures
        ({
            let head = blank_joined(head_words(q, offset, limit));
            let line = trimmed(queue_page_reply(q, offset, limit));
            let items = item_lines(q, page_start(q, offset), page_end(q, offset, limit));
            &&& lines(line) == seq![head] + lines(items)
            &&& line != "QUEUE_PAGE NONE"@
        }),
{
    let start = page_start(q, offset);
    let end = page_end(q, offset, limit);
    let parts = head_words(q, offset, limit);
    let head = blank_joined(parts);
    let items = item_lines(q, start, end);
    let reply = queue_page_reply(q, offset, limit);
    lemma_page_text(q, offset, limit);
    lemma_head_words(q, offset, limit);
    lemma_joined_is_one_line(parts);
    lemma_first_line(head, items);
    lemma_items(q, start, end);
    reveal_strlit("QUEUE_PAGE");
    assert(parts[0] == "QUEUE_PAGE"@);
    let last = decimal((end - start) as nat);
    assert(parts.last() == last);
    lemma_decimal((end - start) as nat);
    assert(crate::text::is_digit(last[last.len() - 1]));
    // Behind the last line stands one line end, which trimming takes off.
    let line = reply.drop_last();
    assert(reply.last() == '\n');
    assert(reply =~= line + seq!['\n']);
    assert(line[0] == head[0]);
    if start < end {
        assert(line.last() == items[items.len() - 2]);
    } else {
        assert(line =~= head);
    }
    lemma_trim_line_end(line);
    lemma_lines_ended(line);
    reveal_strlit("QUEUE_PAGE NONE");
    let none = "QUEUE_PAGE NONE"@;
    if line == none {
        if start < end {
            assert(line[head.len() as int] == '\n');
            assert(none[head.len() as int] == '\n');
        } else {
            assert(none.last() == 'E');
        }
        assert(false);
    }
}

/// The page that the daemon answers is the one that is read.
pub proof fn queue_page_answer_reads_back(q: QueueView, offset: nat, limit: nat)
    requires
        q.wf(),
        ids_are_words(q),
        limit <= VISIBLE_ROWS,
    ensures
        queue_page_in(trimmed(queue_page_reply(q, offset, limit))) == Some(page_of(q, offset, limit)),
{
    match q.order_position {
        None => {
            reveal_strlit("QUEUE_PAGE NONE");
            reveal_strlit("\n");
            reveal_strlit("QUEUE_PAGE NONE\n");
            assert("QUEUE_PAGE NONE\n"@ =~= "QUEUE_PAGE NONE"@ + "\n"@);
            lemma_answer("QUEUE_PAGE NONE"@);
        },
        Some(position) => {
            assert(q.current_index is Some);
            let start = page_start(q, offset);
            let end = page_end(q, offset, limit);
            let total = q.play_order.len();
            let parts = head_words(q, offset, limit);
            let items = item_lines(q, start, end);
            lemma_page_lines(q, offset, limit);
            lemma_head_words(q, offset, limit);
            lemma_words_of_joined(parts);
            lemma_items(q, start, end);
            lemma_source_label(q.source->0);
            let line = trimmed(queue_page_reply(q, offset, limit));
            assert(lines(line)[0] == blank_joined(parts));
            assert(lines(line).skip(1) =~= lines(items));
            decimal_reads_back(q.request_id as nat, u64::MAX as nat);
            decimal_reads_back(position as nat, usize::MAX as nat);
            decimal_reads_back(total, usize::MAX as nat);
            decimal_reads_back(start as nat, usize::MAX as nat);
            decimal_reads_back((end - start) as nat, usize::MAX as nat);
        },
    }
}

/// The line of a listed item, without its end.
#[verifier::opaque]
spec fn listed_line(word: Seq<char>, id: Seq<char>, name: Seq<char>, by: Seq<char>) -> Seq<char> {
    word + (id + seq!['\t'] + (name + seq!['\t'] + by))
}

/// What the line of an item reads as: its fields trimmed, nothing if the id is blank.
pub open spec fn listed_as(id: Seq<char>, name: Seq<char>, by: Seq<char>) -> Option<ListedView> {
    if trimmed(id).len() > 0 {
        Some(ListedView { id: trimmed(id), name: trimmed(name), by: trimmed(by) })
    } else {
        None
    }
}

proof fn lemma_listed_line(word: Seq<char>, id: Seq<char>, name: Seq<char>, by: Seq<char>)
    requires
        !word.contains('\n'),
        !id.contains('\t') && !id.contains('\n'),
        !name.contains('\t') && !name.contains('\n'),
        !by.contains('\n'),
    ensures
        ({
            let line = listed_line(word, id, name, by);
            &&& lines(line + seq!['\n']) == seq![without_cr(line)]
            &&& listed_in(without_cr(line), word) == listed_as(id, name, by)
        }),
{
    reveal(listed_line);
    let line = listed_line(word, id, name, by);
    let second = name + seq!['\t'] + by;
    let rest = id + seq!['\t'] + second;
    assert(!line.contains('\n')) by {
        assert forall|i: int| 0 <= i < line.len() implies line[i] != '\n' by {
            let w = word.len() as int;
            let a = w + id.len();
            let b = a + 1 + name.len();
            if i < w {
                assert(word.contains(word[i]));
            } else if i < a {
                assert(line[i] == id[i - w]);
                assert(id.contains(id[i - w]));
            } else if i == a {
                assert(line[i] == '\t');
            } else if i < b {
                assert(line[i] == name[i - a - 1]);
                assert(name.contains(name[i - a - 1]));
            } else if i == b {
                assert(line[i] == '\t');
            } else {
                assert(line[i] == by[i - b - 1]);
                assert(by.contains(by[i - b - 1]));
            }
        }
    }
    lemma_first_line(line, seq![]);
    assert(line + seq!['\n'] + seq![] =~= line + seq!['\n']);
    assert(seq![without_cr(line)] + lines(seq![]) =~= seq![without_cr(line)]);
    let shown_by = if by.len() > 0 && by.last() == '\r' {
        by.drop_last()
    } else {
        by
    };
    if by.len() > 0 {
        assert(line.last() == by.last());
        if by.last() == '\r' {
            lemma_trim_behind(by.drop_last(), '\r');
            assert(by.drop_last().push('\r') =~= by);
        }
    } else {
        assert(line.last() == '\t');
    }
    let shown_second = name + seq!['\t'] + shown_by;
    let shown_rest = id + seq!['\t'] + shown_second;
    assert(without_cr(line) =~= word + shown_rest);
    lemma_without_prefix(word, shown_rest);
    lemma_cut(id, '\t', shown_second);
    lemma_cut(name, '\t', shown_by);
}

/// The last line of a list is no item of it.
proof fn lemma_end_line(n: nat, word: Seq<char>)
    requires
        word.len() > 0,
        word[0] != 'E',
    ensures
        lines("END "@ + decimal(n) + "\n"@) == seq!["END "@ + decimal(n)],
        listed_in("END "@ + decimal(n), word) is None,
        "END "@.is_prefix_of("END "@ + decimal(n)),
        "END"@.is_prefix_of("END "@ + decimal(n)),
{
    reveal_strlit("END ");
    reveal_strlit("END");
    reveal_strlit("\n");
    assert("\n"@ =~= seq!['\n']);
    let line = "END "@ + decimal(n);
    lemma_decimal(n);
    lemma_word_has_no(decimal(n), '\n');
    assert forall|i: int| 0 <= i < line.len() implies line[i] != '\n' by {
        if i >= 4 {
            assert(line[i] == decimal(n)[i - 4]);
            assert(decimal(n).contains(decimal(n)[i - 4]));
        }
    }
    assert(line.last() == decimal(n).last());
    lemma_one_line(line);
    lemma_other_prefix(line, word, 0);
    assert(line.subrange(0, 4) =~= "END "@);
    assert(line.subrange(0, 3) =~= "END"@);
}

/// Items of lines that stand one behind the other.
proof fn lemma_all_listed_push(texts: Seq<Seq<char>>, line: Seq<char>, word: Seq<char>)
    ensures
        all_listed_in(texts.push(line), word) == match listed_in(line, word) {
            Some(item) => all_listed_in(texts, word).push(item),
            None => all_listed_in(texts, word),
        },
{
    assert(texts.push(line).drop_last() =~= texts);
    assert(texts.push(line).last() == line);
}

/// How a track of a list is shown.
pub open spec fn shown_track(base62: Seq<char>, found: Option<DetailsView>) -> ListedView {
    match found {
        Some(details) => ListedView {
            id: base62,
            name: trimmed(details.name),
            by: trimmed(joined(details.artists, ", "@)),
        },
        None => ListedView { id: base62, name: "(unknown)"@, by: seq![] },
    }
}

/// The name holds no tab and no line end, and the artists no line end.
pub open spec fn fits_a_line(found: Option<DetailsView>) -> bool {
    match found {
        Some(details) => {
            &&& !details.name.contains('\t')
            &&& !details.name.contains('\n')
            &&& !joined(details.artists, ", "@).contains('\n')
        },
        None => true,
    }
}

/// A text that spells an id is a word.
proof fn lemma_id_is_word(s: Seq<char>)
    requires
        base62_id(s) is Some,
    ensures
        is_word(s),
{
    assert forall|i: int| 0 <= i < s.len() implies !is_white(#[trigger] s[i]) by {
        assert(base62_digit(s[i]) is Some);
    }
}

proof fn lemma_result_line(base62: Seq<char>, found: Option<DetailsView>)
    requires
        base62_id(base62) is Some,
        fits_a_line(found),
    ensures
        lines(result_line(base62, found)).len() == 1,
        listed_in(lines(result_line(base62, found))[0], "RESULT "@) == Some(
            shown_track(base62, found),
        ),
        result_line(base62, found).len() > 0,
        result_line(base62, found).last() == '\n',
{
    reveal_strlit("RESULT ");
    reveal_strlit("\t");
    reveal_strlit("\n");
    reveal_strlit("\t(unknown)\t\n");
    reveal_strlit("(unknown)");
    assert("\t"@ =~= seq!['\t']);
    assert("\n"@ =~= seq!['\n']);
    lemma_id_is_word(base62);
    lemma_word_has_no(base62, '\t');
    lemma_word_has_no(base62, '\n');
    lemma_trimmed_is(base62);
    reveal(listed_line);
    match found {
        Some(details) => {
            let by = joined(details.artists, ", "@);
            lemma_listed_line("RESULT "@, base62, details.name, by);
            lemma_group("RESULT "@ + base62 + "\t"@, details.name, "\t"@, by);
            assert("RESULT "@ + base62 + "\t"@ + details.name + "\t"@ + by == "RESULT "@ + base62
                + "\t"@ + (details.name + "\t"@ + by));
            lemma_group("RESULT "@, base62, "\t"@, details.name + "\t"@ + by);
        },
        None => {
            let none = Seq::<char>::empty();
            lemma_listed_line("RESULT "@, base62, "(unknown)"@, none);
            lemma_trimmed_is("(unknown)"@);
            assert("\t(unknown)\t\n"@ =~= "\t"@ + "(unknown)"@ + "\t"@ + none + "\n"@);
            assert("RESULT "@ + base62 + "\t(unknown)\t\n"@ =~= listed_line(
                "RESULT "@,
                base62,
                "(unknown)"@,
                none,
            ) + seq!['\n']);
        },
    }
}

/// The tracks of a list as they are shown.
pub open spec fn shown_tracks(wanted: Seq<Seq<char>>, found: Seq<Option<DetailsView>>) -> Seq<
    ListedView,
> {
    Seq::new(wanted.len(), |i: int| shown_track(wanted[i], found[i]))
}

proof fn lemma_result_lines(wanted: Seq<Seq<char>>, found: Seq<Option<DetailsView>>)
    requires
        wanted.len() <= found.len(),
        forall|i: int| 0 <= i < wanted.len() ==> base62_id(#[trigger] wanted[i]) is Some,
        forall|i: int| 0 <= i < wanted.len() ==> fits_a_line(#[trigger] found[i]),
    ensures
        all_listed_in(lines(result_lines(wanted, found)), "RESULT "@) == shown_tracks(wanted, found),
        result_lines(wanted, found).len() > 0 ==> result_lines(wanted, found).last() == '\n',
    decreases wanted.len(),
{
    if wanted.len() == 0 {
        assert(lines(result_lines(wanted, found)) =~= seq![]);
        assert(shown_tracks(wanted, found) =~= seq![]);
    } else {
        let front = wanted.drop_last();
        let n = wanted.len() - 1;
        assert forall|i: int| 0 <= i < front.len() implies base62_id(#[trigger] front[i]) is Some by {
            assert(front[i] == wanted[i]);
        }
        lemma_result_lines(front, found);
        assert(base62_id(wanted[n]) is Some);
        assert(fits_a_line(found[n]));
        lemma_result_line(wanted[n], found[n]);
        let a = result_lines(front, found);
        let b = result_line(wanted[n], found[n]);
        lemma_lines_concat(a, b);
        assert(lines(a) + lines(b) =~= lines(a).push(lines(b)[0]));
        lemma_all_listed_push(lines(a), lines(b)[0], "RESULT "@);
        assert(shown_tracks(wanted, found) =~= shown_tracks(front, found).push(
            shown_track(wanted[n], found[n]),
        ));
        assert((a + b).last() == b.last());
    }
}

/// The tracks that the daemon lists are the ones that are read, in order, and the list
/// is complete with its last line.
pub proof fn track_list_reads_back(wanted: Seq<Seq<char>>, found: Seq<Option<DetailsView>>)
    requires
        wanted.len() == found.len(),
        forall|i: int| 0 <= i < wanted.len() ==> base62_id(#[trigger] wanted[i]) is Some,
        forall|i: int| 0 <= i < found.len() ==> fits_a_line(#[trigger] found[i]),
    ensures
        all_listed_in(lines(listing_text(wanted, found)), "RESULT "@) == shown_tracks(wanted, found),
        has_line_with(listing_text(wanted, found), "END"@),
{
    reveal_strlit("RESULT ");
    lemma_result_lines(wanted, found);
    lemma_end_line(wanted.len(), "RESULT "@);
    let a = result_lines(wanted, found);
    let end = "END "@ + decimal(wanted.len());
    lemma_group(a, "END "@, decimal(wanted.len()), "\n"@);
    lemma_lines_concat(a, end + "\n"@);
    let all = lines(listing_text(wanted, found));
    assert(all =~= lines(a).push(end));
    lemma_all_listed_push(lines(a), end, "RESULT "@);
    assert(all[all.len() - 1] == end);
}

/// How an entry of a profile is shown.
pub open spec fn shown_playlist(entry: Json) -> Option<ListedView> {
    match text_field(entry, "uri"@) {
        Some(uri) => match without_prefix(uri, "spotify:playlist:"@) {
            Some(id) => listed_as(
                sanitized(id),
                sanitized(text_or(text_field(entry, "name"@), "Untitled Playlist"@)),
                sanitized(text_or(text_field(entry, "owner_name"@), ""@)),
            ),
            None => None,
        },
        None => None,
    }
}

/// The entries of a profile as they are shown.
pub open spec fn shown_playlists(entries: Seq<Json>) -> Seq<ListedView>
    decreases entries.len(),
{
    if entries.len() == 0 {
        seq![]
    } else {
        match shown_playlist(entries.last()) {
            Some(item) => shown_playlists(entries.drop_last()).push(item),
            None => shown_playlists(entries.drop_last()),
        }
    }
}

proof fn lemma_sanitized(s: Seq<char>)
    ensures
        !sanitized(s).contains('\t'),
        !sanitized(s).contains('\n'),
{
}

proof fn lemma_playlist_line(entry: Json)
    requires
        playlist_line(entry) is Some,
    ensures
        lines(playlist_line(entry)->0).len() == 1,
        listed_in(lines(playlist_line(entry)->0)[0], "PLAYLIST "@) == shown_playlist(entry),
        playlist_line(entry)->0.len() > 0,
        playlist_line(entry)->0.last() == '\n',
{
    reveal_strlit("PLAYLIST ");
    reveal_strlit("\t");
    reveal_strlit("\n");
    assert("\t"@ =~= seq!['\t']);
    assert("\n"@ =~= seq!['\n']);
    let id = sanitized(without_prefix(text_field(entry, "uri"@)->0, "spotify:playlist:"@)->0);
    let name = sanitized(text_or(text_field(entry, "name"@), "Untitled Playlist"@));
    let owner = sanitized(text_or(text_field(entry, "owner_name"@), ""@));
    lemma_sanitized(without_prefix(text_field(entry, "uri"@)->0, "spotify:playlist:"@)->0);
    lemma_sanitized(text_or(text_field(entry, "name"@), "Untitled Playlist"@));
    lemma_sanitized(text_or(text_field(entry, "owner_name"@), ""@));
    lemma_listed_line("PLAYLIST "@, id, name, owner);
    reveal(listed_line);
    lemma_group("PLAYLIST "@ + id + "\t"@, name, "\t"@, owner);
    lemma_group("PLAYLIST "@, id, "\t"@, name + "\t"@ + owner);
}

proof fn lemma_playlist_lines(entries: Seq<Json>)
    ensures
        all_listed_in(lines(chained(playlist_lines(entries))), "PLAYLIST "@) == shown_playlists(
            entries,
        ),
        chained(playlist_lines(entries)).len() > 0 ==> chained(playlist_lines(entries)).last()
            == '\n',
    decreases entries.len(),
{
    if entries.len() == 0 {
        assert(lines(chained(playlist_lines(entries))) =~= seq![]);
    } else {
        let front = entries.drop_last();
        lemma_playlist_lines(front);
        if playlist_line(entries.last()) is Some {
            let line = playlist_line(entries.last())->0;
            lemma_playlist_line(entries.last());
            let a = chained(playlist_lines(front));
            let all = playlist_lines(front).push(line);
            assert(all.drop_last() =~= playlist_lines(front));
            assert(all.last() == line);
            assert(chained(playlist_lines(entries)) == a + line);
            lemma_lines_concat(a, line);
            assert(lines(a) + lines(line) =~= lines(a).push(lines(line)[0]));
            lemma_all_listed_push(lines(a), lines(line)[0], "PLAYLIST "@);
            assert((a + line).last() == line.last());
        }
    }
}

/// The playlists that the daemon lists are the ones that are read, in order, but for
/// those with a blank id, and the list is complete with its last line.
pub proof fn playlist_list_reads_back(profile: Json)
    requires
        field(profile, "public_playlists"@) matches Some(value) && value is Array,
    ensures
        all_listed_in(lines(profile_text(profile)), "PLAYLIST "@) == shown_playlists(
            listed(field(profile, "public_playlists"@)->0->Array_0),
        ),
        has_line_with(profile_text(profile), "END "@),
{
    reveal_strlit("PLAYLIST ");
    let entries = listed(field(profile, "public_playlists"@)->0->Array_0);
    let texts = playlist_lines(entries);
    let a = chained(texts);
    lemma_playlist_lines(entries);
    lemma_end_line(texts.len(), "PLAYLIST "@);
    let end = "END "@ + decimal(texts.len());
    lemma_group(a, "END "@, decimal(texts.len()), "\n"@);
    lemma_lines_concat(a, end + "\n"@);
    let all = lines(profile_text(profile));
    assert(all =~= lines(a).push(end));
    lemma_all_listed_push(lines(a), end, "PLAYLIST "@);
    assert(all[all.len() - 1] == end);
}

/// A command line of a word and an argument.
proof fn lemma_command(word: Seq<char>, arg: Seq<char>)
    requires
        is_word(word),
        arg.len() > 0,
        !is_white(arg[0]),
        !is_white(arg.last()),
    ensures
        command_parts(word + seq![' '] + arg) == Some((word, arg)),
{
    let line = word + seq![' '] + arg;
    assert(line[0] == word[0]);
    assert(line.last() == arg.last());
    lemma_trimmed_is(line);
    lemma_trimmed_is(arg);
    lemma_word_has_no(word, ' ');
    lemma_cut(word, ' ', arg);
}

/// The word of the command that loads a track from a list.
pub open spec fn load_word(source: SourceView) -> Seq<char> {
    match source {
        SourceView::Liked => "LOAD_LIKED"@,
        SourceView::Playlist(_) => "LOAD_PLAYLIST"@,
        SourceView::Search => "LOAD_SEARCH"@,
    }
}

/// The request that the daemon reads out of the argument of such a command.
pub open spec fn request_in(source: SourceView, arg: Seq<char>) -> Option<RequestView> {
    match source {
        SourceView::Playlist(_) => playlist_request(arg),
        _ => track_request(source, arg),
    }
}

/// The words behind the command.
spec fn load_words(source: SourceView, request_id: u64, track_id: Seq<char>) -> Seq<Seq<char>> {
    match source {
        SourceView::Playlist(id) => seq![decimal(request_id as nat)].push(id).push(track_id),
        _ => seq![decimal(request_id as nat)].push(track_id),
    }
}

proof fn lemma_load_command(source: SourceView, request_id: u64, track_id: Seq<char>)
    ensures
        load_command(source, request_id, track_id) == load_word(source) + seq![' '] + blank_joined(
            load_words(source, request_id, track_id),
        ),
{
    reveal_strlit(" ");
    reveal_strlit("LOAD_LIKED");
    reveal_strlit("LOAD_LIKED ");
    reveal_strlit("LOAD_PLAYLIST");
    reveal_strlit("LOAD_PLAYLIST ");
    reveal_strlit("LOAD_SEARCH");
    reveal_strlit("LOAD_SEARCH ");
    assert(" "@ =~= seq![' ']);
    assert("LOAD_LIKED "@ =~= "LOAD_LIKED"@ + seq![' ']);
    assert("LOAD_PLAYLIST "@ =~= "LOAD_PLAYLIST"@ + seq![' ']);
    assert("LOAD_SEARCH "@ =~= "LOAD_SEARCH"@ + seq![' ']);
    let digits = decimal(request_id as nat);
    let head = load_word(source) + seq![' '];
    let one = seq![digits];
    assert(blank_joined(one) == digits);
    match source {
        SourceView::Playlist(id) => {
            lemma_blank_joined_push(one, id);
            lemma_blank_joined_push(one.push(id), track_id);
            lemma_group_five(head, digits, seq![' '], id, seq![' '], track_id);
        },
        _ => {
            lemma_blank_joined_push(one, track_id);
            lemma_group(head, digits, seq![' '], track_id);
        },
    }
}

/// The command for a tapped track is read as a request for that track, from that list,
/// under that number, as long as the ids hold no white space.
pub proof fn tapped_track_is_requested(source: SourceView, request_id: u64, track_id: Seq<char>)
    requires
        is_word(track_id),
        source matches SourceView::Playlist(id) ==> is_word(id),
    ensures
        ({
            let parts = command_parts(load_command(source, request_id, track_id));
            &&& parts matches Some((word, arg)) && word == load_word(source) && request_in(source, arg)
                == Some(RequestView { source, request_id, track_id })
        }),
{
    reveal_strlit("LOAD_LIKED");
    reveal_strlit("LOAD_PLAYLIST");
    reveal_strlit("LOAD_SEARCH");
    let parts = load_words(source, request_id, track_id);
    let arg = blank_joined(parts);
    lemma_decimal(request_id as nat);
    lemma_load_command(source, request_id, track_id);
    assert(forall|i: int| 0 <= i < parts.len() ==> is_word(#[trigger] parts[i]));
    assert(parts[0] == decimal(request_id as nat));
    assert(parts.last() == track_id);
    lemma_joined_is_one_line(parts);
    lemma_words_of_joined(parts);
    lemma_command(load_word(source), arg);
    decimal_reads_back(request_id as nat, u64::MAX as nat);
}

/// A seek is read as the time that was touched.
pub proof fn seek_is_read(ms: u32)
    ensures
        command_parts(seek_command(ms)) == Some(("SEEK"@, decimal(ms as nat))),
        number(decimal(ms as nat), u32::MAX as nat) == Some(ms as nat),
{
    reveal_strlit("SEEK");
    reveal_strlit("SEEK ");
    assert("SEEK "@ =~= "SEEK"@ + seq![' ']);
    lemma_decimal(ms as nat);
    lemma_command("SEEK"@, decimal(ms as nat));
    decimal_reads_back(ms as nat, u32::MAX as nat);
}

/// The request for a page is read as a page of that offset, with as many items as there
/// are rows.
pub proof fn page_request_is_read(offset: usize)
    ensures
        ({
            let parts = command_parts(page_command(offset));
            &&& parts matches Some((word, arg)) && word == "QUEUE_PAGE"@ && page_request(arg) == Some(
                (offset as nat, VISIBLE_ROWS as nat),
            )
        }),
{
    reveal_strlit("QUEUE_PAGE");
    reveal_strlit("QUEUE_PAGE ");
    reveal_strlit(" 9");
    assert("QUEUE_PAGE "@ =~= "QUEUE_PAGE"@ + seq![' ']);
    let digits = decimal(offset as nat);
    let nine = decimal(9);
    lemma_decimal(offset as nat);
    lemma_decimal(9);
    assert(nine =~= seq!['9']);
    let parts = seq![digits].push(nine);
    lemma_blank_joined_push(seq![digits], nine);
    assert(blank_joined(seq![digits]) == digits);
    assert(" 9"@ =~= seq![' '] + nine);
    let arg = blank_joined(parts);
    assert(page_command(offset) =~= "QUEUE_PAGE"@ + seq![' '] + arg);
    lemma_joined_is_one_line(parts);
    lemma_words_of_joined(parts);
    lemma_command("QUEUE_PAGE"@, arg);
    decimal_reads_back(offset as nat, usize::MAX as nat);
    decimal_reads_back(9, usize::MAX as nat);
}

/// What the daemon is asked, it answers of the state that it is in, as the interface reads
/// it.
pub proof fn reports_tell_the_state(d: DaemonView, arg: Seq<char>, mode: Seq<char>, volume: u16)
    requires
        d.wf(),
        ids_are_words(d.queue),
    ensures
        status_in(trimmed(obeyed(d, "STATUS"@, arg, mode, volume).1->Answer_0.text)) == Some(
            shown_state(d.state),
        ),
        modes_in(trimmed(obeyed(d, "PLAYBACK_MODES"@, arg, mode, volume).1->Answer_0.text)) == Some(
            ShownModes { shuffle: d.modes.shuffle, repeat: d.modes.repeat },
        ),
        position_in(trimmed(obeyed(d, "POSITION"@, arg, mode, volume).1->Answer_0.text)) == Some(
            d.position,
        ),
        queue_status_in(trimmed(obeyed(d, "QUEUE_STATUS"@, arg, mode, volume).1->Answer_0.text))
            == Some(status_of(d.queue)),
        d.now_playing is None ==> now_playing_in(
            trimmed(obeyed(d, "NOW_PLAYING"@, arg, mode, volume).1->Answer_0.text),
        ) == Some(None::<NowPlayingView>),
{
    lemma_command_words();
    status_answer_reads_back(d.state);
    modes_answer_reads_back(d.modes);
    position_answer_reads_back(d.position);
    queue_status_answer_reads_back(d.queue);
    silence_reads_back();
}

/// The same of the track that plays, as long as no field of it holds a tab and its id is
/// not blank.
pub proof fn report_tells_the_track(d: DaemonView, arg: Seq<char>, mode: Seq<char>, volume: u16)
    requires
        d.now_playing is Some,
        !d.now_playing->0.id.contains('\t'),
        !d.now_playing->0.title.contains('\t'),
        !d.now_playing->0.artist.contains('\t'),
        trimmed(d.now_playing->0.id).len() > 0,
    ensures
        now_playing_in(trimmed(obeyed(d, "NOW_PLAYING"@, arg, mode, volume).1->Answer_0.text))
            == Some(Some(trimmed_item(d.now_playing->0))),
{
    lemma_command_words();
    now_playing_answer_reads_back(d.now_playing->0);
}

/// A page that the interface asks for lists the turns from the offset on, nine of them or
/// as many as are left, each with the track whose turn it is.
pub proof fn page_lists_the_turns(d: DaemonView, offset: usize, mode: Seq<char>, volume: u16, i: int)
    requires
        d.wf(),
        ids_are_words(d.queue),
        d.queue.current_index is Some,
        offset < d.queue.play_order.len(),
    ensures
        ({
            let parts = command_parts(page_command(offset))->0;
            let reply = obeyed(d, parts.0, parts.1, mode, volume).1->Answer_0.text;
            let known = queue_page_in(trimmed(reply));
            let left = d.queue.play_order.len() - offset;
            &&& known is Some
            &&& known->0 is Some
            &&& known->0->0.start == offset
            &&& known->0->0.total == d.queue.play_order.len()
            &&& d.queue.order_position == Some(known->0->0.current_position)
            &&& d.queue.source == Some(known->0->0.source)
            &&& known->0->0.items.len() == if left < 9 {
                left
            } else {
                9
            }
            &&& 0 <= i < known->0->0.items.len() ==> {
                let item = known->0->0.items[i];
                let index = d.queue.play_order[offset + i];
                &&& item.position == offset + i
                &&& item.source_index == index
                &&& item.track_id == d.queue.track_ids[index as int]
            }
        }),
{
    lemma_command_words();
    page_request_is_read(offset);
    queue_page_answer_reads_back(d.queue, offset as nat, 9);
}

/// A touch of a repeat tile, sent to the daemon and read back, marks that tile and no other.
pub proof fn touched_repeat_mode_is_marked(
    u: UiView,
    tile: int,
    d: DaemonView,
    now: u64,
    volume: u16,
)
    requires
        u.nav.view == AppView::Sound,
        touches_tile(u, tile),
        1 <= tile <= 3,
    ensures
        ({
            let (after, effect) = touched(u, now);
            let (word, arg) = command_parts(effect->AskSetMode_0)->0;
            let set = obeyed(d, word, arg, arg, volume).0;
            let told = obeyed(set, "PLAYBACK_MODES"@, seq![], seq![], volume).1->Answer_0.text;
            let shown = modes_answered(after, Some(trimmed(told)));
            &&& effect is AskSetMode
            &&& tile_marked(shown, tile)
            &&& forall|other: int|
                1 <= other <= 3 && other != tile ==> !#[trigger] tile_marked(shown, other)
            &&& tile_label(AppView::Sound, tile) == if set.modes.repeat == RepeatMode::Off {
                "Repeat Off"@
            } else if set.modes.repeat == RepeatMode::All {
                "Repeat All"@
            } else {
                "Repeat One"@
            }
            &&& set.modes.shuffle == d.modes.shuffle
        }),
{
    lemma_command_words();
    reveal_strlit("OFF");
    reveal_strlit("ALL");
    reveal_strlit("ONE");
    reveal_strlit("SET_REPEAT OFF");
    reveal_strlit("SET_REPEAT ALL");
    reveal_strlit("SET_REPEAT ONE");
    reveal_strlit("SET_REPEAT");
    assert((u.device.y - 40) / 180 * 2 + u.device.x / 240 == tile);
    assert("SET_REPEAT OFF"@ =~= "SET_REPEAT"@ + seq![' '] + "OFF"@);
    assert("SET_REPEAT ALL"@ =~= "SET_REPEAT"@ + seq![' '] + "ALL"@);
    assert("SET_REPEAT ONE"@ =~= "SET_REPEAT"@ + seq![' '] + "ONE"@);
    lemma_command("SET_REPEAT"@, "OFF"@);
    lemma_command("SET_REPEAT"@, "ALL"@);
    lemma_command("SET_REPEAT"@, "ONE"@);
    assert("OFF"@[0] == 'O' && "ALL"@[0] == 'A' && "ONE"@[1] == 'N' && "OFF"@[1] == 'F' && "ONE"@[0]
        == 'O');
    let (after, effect) = touched(u, now);
    let (word, arg) = command_parts(effect->AskSetMode_0)->0;
    let set = obeyed(d, word, arg, arg, volume).0;
    modes_answer_reads_back(set.modes);
}

/// A touch of the shuffle tile, sent to the daemon and read back, turns the mode that was
/// shown into the other one.
pub proof fn touched_shuffle_is_turned(u: UiView, d: DaemonView, now: u64, volume: u16)
    requires
        u.nav.view == AppView::Sound,
        touches_tile(u, 0),
    ensures
        ({
            let (after, effect) = touched(u, now);
            let (word, arg) = command_parts(effect->AskSetMode_0)->0;
            let set = obeyed(d, word, arg, arg, volume).0;
            let told = obeyed(set, "PLAYBACK_MODES"@, seq![], seq![], volume).1->Answer_0.text;
            let shown = modes_answered(after, Some(trimmed(told)));
            &&& effect is AskSetMode
            &&& set.modes.shuffle == !u.play.modes.shuffle
            &&& shown.play.modes.shuffle == !u.play.modes.shuffle
            &&& set.modes.repeat == d.modes.repeat
        }),
{
    lemma_command_words();
    reveal_strlit("ON");
    reveal_strlit("OFF");
    reveal_strlit("SET_SHUFFLE ON");
    reveal_strlit("SET_SHUFFLE OFF");
    reveal_strlit("SET_SHUFFLE");
    assert((u.device.y - 40) / 180 * 2 + u.device.x / 240 == 0);
    assert("SET_SHUFFLE ON"@ =~= "SET_SHUFFLE"@ + seq![' '] + "ON"@);
    assert("SET_SHUFFLE OFF"@ =~= "SET_SHUFFLE"@ + seq![' '] + "OFF"@);
    lemma_command("SET_SHUFFLE"@, "ON"@);
    lemma_command("SET_SHUFFLE"@, "OFF"@);
    assert("ON"@.len() == 2 && "OFF"@.len() == 3);
    let (after, effect) = touched(u, now);
    let (word, arg) = command_parts(effect->AskSetMode_0)->0;
    let set = obeyed(d, word, arg, arg, volume).0;
    modes_answer_reads_back(set.modes);
}

/// The number at the end of a list of tracks is the number of lines before it.
pub proof fn track_list_counts_its_lines(wanted: Seq<Seq<char>>, found: Seq<Option<DetailsView>>)
    requires
        wanted.len() == found.len(),
        forall|i: int| 0 <= i < wanted.len() ==> base62_id(#[trigger] wanted[i]) is Some,
        forall|i: int| 0 <= i < found.len() ==> fits_a_line(#[trigger] found[i]),
    ensures
        ({
            let all = lines(listing_text(wanted, found));
            &&& all.len() == wanted.len() + 1
            &&& all.last() == "END "@ + decimal((all.len() - 1) as nat)
        }),
{
    reveal_strlit("RESULT ");
    lemma_result_lines(wanted, found);
    lemma_result_count(wanted, found);
    lemma_end_line(wanted.len(), "RESULT "@);
    let a = result_lines(wanted, found);
    let end = "END "@ + decimal(wanted.len());
    lemma_group(a, "END "@, decimal(wanted.len()), "\n"@);
    lemma_lines_concat(a, end + "\n"@);
    assert(lines(listing_text(wanted, found)) =~= lines(a).push(end));
}

proof fn lemma_result_count(wanted: Seq<Seq<char>>, found: Seq<Option<DetailsView>>)
    requires
        wanted.len() <= found.len(),
        forall|i: int| 0 <= i < wanted.len() ==> base62_id(#[trigger] wanted[i]) is Some,
        forall|i: int| 0 <= i < wanted.len() ==> fits_a_line(#[trigger] found[i]),
    ensures
        lines(result_lines(wanted, found)).len() == wanted.len(),
    decreases wanted.len(),
{
    if wanted.len() > 0 {
        let front = wanted.drop_last();
        let n = wanted.len() - 1;
        assert forall|i: int| 0 <= i < front.len() implies base62_id(#[trigger] front[i]) is Some by {
            assert(front[i] == wanted[i]);
        }
        lemma_result_count(front, found);
        lemma_result_lines(front, found);
        assert(base62_id(wanted[n]) is Some);
        assert(fits_a_line(found[n]));
        lemma_result_line(wanted[n], found[n]);
        lemma_lines_concat(result_lines(front, found), result_line(wanted[n], found[n]));
    }
}

/// The number at the end of a list of playlists is the number of lines before it.
pub proof fn playlist_list_counts_its_lines(profile: Json)
    requires
        field(profile, "public_playlists"@) matches Some(value) && value is Array,
    ensures
        ({
            let all = lines(profile_text(profile));
            &&& all.len() > 0
            &&& all.last() == "END "@ + decimal((all.len() - 1) as nat)
        }),
{
    reveal_strlit("PLAYLIST ");
    let entries = listed(field(profile, "public_playlists"@)->0->Array_0);
    let texts = playlist_lines(entries);
    let a = chained(texts);
    lemma_playlist_lines(entries);
    lemma_playlist_count(entries);
    lemma_end_line(texts.len(), "PLAYLIST "@);
    let end = "END "@ + decimal(texts.len());
    lemma_group(a, "END "@, decimal(texts.len()), "\n"@);
    lemma_lines_concat(a, end + "\n"@);
    assert(lines(profile_text(profile)) =~= lines(a).push(end));
}

proof fn lemma_playlist_count(entries: Seq<Json>)
    ensures
        lines(chained(playlist_lines(entries))).len() == playlist_lines(entries).len(),
    decreases entries.len(),
{
    if entries.len() > 0 {
        let front = entries.drop_last();
        lemma_playlist_count(front);
        lemma_playlist_lines(front);
        if playlist_line(entries.last()) is Some {
            let line = playlist_line(entries.last())->0;
            lemma_playlist_line(entries.last());
            let all = playlist_lines(front).push(line);
            assert(all.drop_last() =~= playlist_lines(front));
            assert(all.last() == line);
            lemma_lines_concat(chained(playlist_lines(front)), line);
        }
    }
}

/// A step that loads a track is shown as loading, and one that does not is not.
pub proof fn answered_step_is_shown(u: UiView, d: DaemonView, forward: bool)
    ensures
        stepped(d, forward).1.act is Load ==> step_answered(
            u,
            Some(trimmed(stepped(d, forward).1.text)),
        ).play.state == PlaybackState::Loading,
        stepped(d, forward).1.act is Nothing ==> step_answered(
            u,
            Some(trimmed(stepped(d, forward).1.text)),
        ) == u,
{
    reveal_strlit("OK loading ");
    reveal_strlit("OK queue boundary\n");
    reveal_strlit("OK queue boundary");
    reveal_strlit("ERR bad queued track id '");
    reveal_strlit("\n");
    let loading = "OK loading "@;
    let text = stepped(d, forward).1.text;
    match d.queue.target(forward, d.modes.repeat) {
        None => {
            let line = "OK queue boundary"@;
            assert(text =~= line + "\n"@);
            lemma_answer(line);
            lemma_other_prefix(line, loading, 3);
        },
        Some(position) => {
            let track = d.queue.track_at(position);
            match base62_id(track) {
                Some(id) => {
                    lemma_id_is_word(track);
                    let rest = crate::daemon::control::direction(forward) + " "@ + decimal(
                        d.queue.play_order[position as int] as nat,
                    ) + " "@ + track;
                    lemma_group_five(
                        loading,
                        crate::daemon::control::direction(forward),
                        " "@,
                        decimal(d.queue.play_order[position as int] as nat),
                        " "@,
                        track,
                    );
                    assert(rest.last() == track.last());
                    lemma_prefixed_answer(loading, rest);
                },
                None => {
                    reveal_strlit("': ");
                    let error = crate::media::bad_id_text();
                    reveal_strlit("Client specified an invalid argument { ID cannot be parsed }");
                    let prefix = "ERR bad queued track id '"@;
                    let rest = track + "': "@ + error;
                    lemma_group(prefix, track, "': "@, error);
                    assert(error.last() == '}');
                    assert(rest.last() == error.last());
                    lemma_prefixed_answer(prefix, rest);
                    let line = prefix + rest;
                    assert(line[0] == 'E');
                    assert(loading[0] == 'O');
                    lemma_other_prefix(line, loading, 0);
                },
            }
        },
    }
}

/// The diagnostics and the sound menu show what the daemon tells.
pub proof fn opened_menus_show_what_is_told(u: UiView, d: DaemonView, now: u64)
    requires
        d.wf(),
        ids_are_words(d.queue),
    ensures
        ({
            let modes = trimmed(obeyed(d, "PLAYBACK_MODES"@, seq![], seq![], 0).1->Answer_0.text);
            let queue = trimmed(obeyed(d, "QUEUE_STATUS"@, seq![], seq![], 0).1->Answer_0.text);
            let state = trimmed(obeyed(d, "STATUS"@, seq![], seq![], 0).1->Answer_0.text);
            let sound = sound_answered(u, Some(modes));
            let opened = diagnostics_answered(u, Some(queue));
            let fresh = refresh_answered(u, Some(state), Some(queue), now);
            &&& sound.play.modes.shuffle == d.modes.shuffle
            &&& sound.play.modes.repeat == d.modes.repeat
            &&& sound.nav.view == AppView::Sound
            &&& sound_answered(u, None).play == u.play
            &&& opened.queue_status == status_of(d.queue)
            &&& opened.nav.view == AppView::Diagnostics
            &&& fresh.queue_status == status_of(d.queue)
            &&& fresh.play.state == shown_state(d.state)
            &&& fresh.times.diagnostics == Some(now)
            &&& fresh.nav == u.nav
            &&& refresh_answered(u, None, None, now).play == u.play
            &&& refresh_answered(u, None, None, now).queue_status is None
        }),
{
    reports_tell_the_state(d, seq![], seq![], 0);
}

} // verus!
