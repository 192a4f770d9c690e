//! What the daemon's answers mean.
use crate::daemon::modes::RepeatMode;
use crate::daemon::queue::{QueueSource, SourceView};
use crate::daemon::state::{NowPlaying, NowPlayingView};
use crate::text::{
    after, before, from_utf8_lossy, lines, number, parse_u32, parse_u64, parse_u8, parse_usize,
    same, split_lines, split_once, split_words, starts_with, strip_prefix, trim, trimmed,
    utf8_lossy, view_opt, views, without_prefix, words,
};
use vstd::prelude::*;
use vstd::string::*;

verus! {

/// How many rows a list shows, and how many items a page of the queue has.
pub const VISIBLE_ROWS: usize = 9;

/// Playback state as the daemon reports it.
#[derive(Clone, Copy, Debug, PartialEq, Eq, Structural)]
pub enum PlaybackState {
    Unknown,
    Stopped,
    Loading,
    Playing,
    Paused,
    Error,
}

/// Shuffle and repeat as the daemon reports them.
#[derive(Clone, Copy, Debug, PartialEq, Eq, Structural)]
pub struct ShownModes {
    pub shuffle: bool,
    pub repeat: RepeatMode,
}

/// Both modes off.
pub open spec fn modes_off() -> ShownModes {
    ShownModes { shuffle: false, repeat: RepeatMode::Off }
}

impl Default for ShownModes {
    fn default() -> (r: ShownModes)
        ensures
            r == modes_off(),
    {
        ShownModes { shuffle: false, repeat: RepeatMode::Off }
    }
}

/// The text of an answer that was received as bytes; none if nothing came.
pub open spec fn reply_text(bytes: Seq<u8>) -> Option<Seq<char>> {
    if bytes.len() == 0 {
        None
    } else {
        Some(trimmed(utf8_lossy(bytes)))
    }
}

/// Reads an answer of one read.
pub fn decode_reply(bytes: &[u8]) -> (r: Option<String>)
    ensures
        view_opt(r) == reply_text(bytes@),
        bytes@.len() > 0 && vstd::utf8::valid_utf8(bytes@) ==> view_opt(r) == Some(
            trimmed(vstd::utf8::decode_utf8(bytes@)),
        ),
{
    if bytes.len() == 0 {
        return None;
    }
    let text = from_utf8_lossy(bytes);
    Some(trim(text.as_str()).to_owned())
}

/// Reads an answer of several lines.
pub fn decode_lines(bytes: &[u8]) -> (r: String)
    ensures
        r@ == utf8_lossy(bytes@),
        vstd::utf8::valid_utf8(bytes@) ==> r@ == vstd::utf8::decode_utf8(bytes@),
{
    from_utf8_lossy(bytes)
}

/// The percentage in an answer such as `OK vol 85`.
pub open spec fn volume_in(reply: Seq<char>) -> Option<u8> {
    match without_prefix(reply, "OK vol "@) {
        Some(value) => match number(trimmed(value), 255) {
            Some(percent) => if percent <= 100 {
                Some(percent as u8)
            } else {
                None
            },
            None => None,
        },
        None => None,
    }
}

/// Extract a percentage from replies such as `OK vol 85`.
pub fn parse_volume_reply(reply: &str) -> (r: Option<u8>)
    ensures
        r == volume_in(reply@),
{
    match strip_prefix(reply, "OK vol ") {
        Some(value) => match parse_u8(trim(value)) {
            Some(percent) => {
                if percent <= 100 {
                    Some(percent)
                } else {
                    None
                }
            },
            None => None,
        },
        None => None,
    }
}

/// The state in the answer to `STATUS`.
pub open spec fn status_in(reply: Seq<char>) -> Option<PlaybackState> {
    if reply == "STATUS STOPPED"@ {
        Some(PlaybackState::Stopped)
    } else if reply == "STATUS LOADING"@ {
        Some(PlaybackState::Loading)
    } else if reply == "STATUS PLAYING"@ {
        Some(PlaybackState::Playing)
    } else if reply == "STATUS PAUSED"@ {
        Some(PlaybackState::Paused)
    } else if reply == "STATUS ERROR"@ {
        Some(PlaybackState::Error)
    } else {
        None
    }
}

impl PlaybackState {
    pub fn from_status_reply(reply: &str) -> (r: Option<PlaybackState>)
        ensures
            r == status_in(reply@),
    {
        if same(reply, "STATUS STOPPED") {
            Some(PlaybackState::Stopped)
        } else if same(reply, "STATUS LOADING") {
            Some(PlaybackState::Loading)
        } else if same(reply, "STATUS PLAYING") {
            Some(PlaybackState::Playing)
        } else if same(reply, "STATUS PAUSED") {
            Some(PlaybackState::Paused)
        } else if same(reply, "STATUS ERROR") {
            Some(PlaybackState::Error)
        } else {
            None
        }
    }

    pub fn is_paused(self) -> (r: bool)
        ensures
            r == (self == PlaybackState::Paused),
    {
        self == PlaybackState::Paused
    }
}

/// Whether a word says that a mode is on.
pub open spec fn switch_named(word: Seq<char>) -> Option<bool> {
    if word == "ON"@ {
        Some(true)
    } else if word == "OFF"@ {
        Some(false)
    } else {
        None
    }
}

/// The repeat mode that a word names.
pub open spec fn shown_repeat(word: Seq<char>) -> Option<RepeatMode> {
    if word == "OFF"@ {
        Some(RepeatMode::Off)
    } else if word == "ALL"@ {
        Some(RepeatMode::All)
    } else if word == "ONE"@ {
        Some(RepeatMode::One)
    } else {
        None
    }
}

/// The modes in the answer to `PLAYBACK_MODES`.
pub open spec fn modes_in(reply: Seq<char>) -> Option<ShownModes> {
    let fields = words(reply);
    if fields.len() != 5 || fields[0] != "MODES"@ || fields[1] != "SHUFFLE"@ || fields[3]
        != "REPEAT"@ {
        None
    } else {
        match (switch_named(fields[2]), shown_repeat(fields[4])) {
            (Some(shuffle), Some(repeat)) => Some(ShownModes { shuffle, repeat }),
            _ => None,
        }
    }
}

/// Reads the answer to `PLAYBACK_MODES`.
pub fn daemon_playback_modes(reply: &str) -> (r: Option<ShownModes>)
    ensures
        r == modes_in(reply@),
{
    let fields = split_words(reply);
    let ghost all = words(reply@);
    assert(fields@.len() == all.len());
    if fields.len() != 5 {
        return None;
    }
    assert(fields@[0]@ == all[0] && fields@[1]@ == all[1] && fields@[2]@ == all[2]);
    assert(fields@[3]@ == all[3] && fields@[4]@ == all[4]);
    if !same(fields[0], "MODES") || !same(fields[1], "SHUFFLE") || !same(fields[3], "REPEAT") {
        return None;
    }
    let shuffle = if same(fields[2], "ON") {
        true
    } else if same(fields[2], "OFF") {
        false
    } else {
        return None;
    };
    let repeat = if same(fields[4], "OFF") {
        RepeatMode::Off
    } else if same(fields[4], "ALL") {
        RepeatMode::All
    } else if same(fields[4], "ONE") {
        RepeatMode::One
    } else {
        return None;
    };
    Some(ShownModes { shuffle, repeat })
}

/// The place in the queue that plays.
pub struct QueueStatus {
    pub source: QueueSource,
    pub request_id: u64,
    pub index: usize,
    pub length: usize,
    pub track_id: String,
}

pub struct StatusView {
    pub source: SourceView,
    pub request_id: u64,
    pub index: usize,
    pub length: usize,
    pub track_id: Seq<char>,
}

impl View for QueueStatus {
    type V = StatusView;

    open spec fn view(&self) -> StatusView {
        StatusView {
            source: self.source@,
            request_id: self.request_id,
            index: self.index,
            length: self.length,
            track_id: self.track_id@,
        }
    }
}

/// An index, a length and a track id, the index below the length.
pub open spec fn status_rest(source: SourceView, request_id: u64, rest: Seq<char>) -> Option<
    StatusView,
> {
    match after(rest, ' ') {
        Some(behind) => match (
            number(before(rest, ' '), usize::MAX as nat),
            number(before(behind, ' '), usize::MAX as nat),
            after(behind, ' '),
        ) {
            (Some(index), Some(length), Some(track)) => if trimmed(track).len() > 0 && index
                < length {
                Some(
                    StatusView {
                        source,
                        request_id,
                        index: index as usize,
                        length: length as usize,
                        track_id: trimmed(track),
                    },
                )
            } else {
                None
            },
            _ => None,
        },
        None => None,
    }
}

/// The same behind the number of a request.
pub open spec fn status_numbered(source: SourceView, rest: Seq<char>) -> Option<StatusView> {
    match (number(before(rest, ' '), u64::MAX as nat), after(rest, ' ')) {
        (Some(request_id), Some(behind)) => status_rest(source, request_id as u64, behind),
        _ => None,
    }
}

/// The same behind the number of a request and the id of a playlist.
pub open spec fn status_of_playlist(rest: Seq<char>) -> Option<StatusView> {
    match (number(before(rest, ' '), u64::MAX as nat), after(rest, ' ')) {
        (Some(request_id), Some(behind)) => match after(behind, ' ') {
            Some(tail) => if trimmed(before(behind, ' ')).len() > 0 {
                status_rest(
                    SourceView::Playlist(trimmed(before(behind, ' '))),
                    request_id as u64,
                    tail,
                )
            } else {
                None
            },
            None => None,
        },
        _ => None,
    }
}

/// The outer option is none for an answer that is malformed, the inner one where no
/// queue plays.
pub open spec fn known<A>(status: Option<A>) -> Option<Option<A>> {
    match status {
        Some(status) => Some(Some(status)),
        None => None,
    }
}

/// The place in the answer to `QUEUE_STATUS`.
pub open spec fn queue_status_in(reply: Seq<char>) -> Option<Option<StatusView>> {
    if reply == "QUEUE NONE"@ {
        Some(None)
    } else if let Some(rest) = without_prefix(reply, "QUEUE LIKED "@) {
        known(status_numbered(SourceView::Liked, rest))
    } else if let Some(rest) = without_prefix(reply, "QUEUE PLAYLIST "@) {
        known(status_of_playlist(rest))
    } else if let Some(rest) = without_prefix(reply, "QUEUE SEARCH "@) {
        known(status_numbered(SourceView::Search, rest))
    } else {
        None
    }
}

/// The view of what a reply said.
pub open spec fn view_known<T: View>(o: Option<Option<T>>) -> Option<Option<T::V>> {
    match o {
        Some(inner) => Some(view_opt(inner)),
        None => None,
    }
}

fn parse_status_rest(source: QueueSource, request_id: u64, rest: &str) -> (r: Option<QueueStatus>)
    ensures
        view_opt(r) == status_rest(source@, request_id, rest@),
{
    let (index, behind) = split_once(rest, ' ');
    let behind = match behind {
        Some(behind) => behind,
        None => {
            return None;
        },
    };
    let (length, track) = split_once(behind, ' ');
    match (parse_usize(index), parse_usize(length), track) {
        (Some(index), Some(length), Some(track)) => {
            let track_id = trim(track);
            if track_id.is_empty() || index >= length {
                None
            } else {
                Some(QueueStatus { source, request_id, index, length, track_id: track_id.to_owned() })
            }
        },
        _ => None,
    }
}

fn parse_status_numbered(source: QueueSource, rest: &str) -> (r: Option<QueueStatus>)
    ensures
        view_opt(r) == status_numbered(source@, rest@),
{
    let (request_id, behind) = split_once(rest, ' ');
    match (parse_u64(request_id), behind) {
        (Some(request_id), Some(behind)) => parse_status_rest(source, request_id, behind),
        _ => None,
    }
}

fn parse_status_of_playlist(rest: &str) -> (r: Option<QueueStatus>)
    ensures
        view_opt(r) == status_of_playlist(rest@),
{
    let (request_id, behind) = split_once(rest, ' ');
    match (parse_u64(request_id), behind) {
        (Some(request_id), Some(behind)) => {
            let (playlist, tail) = split_once(behind, ' ');
            let playlist = trim(playlist);
            match tail {
                Some(tail) => {
                    if playlist.is_empty() {
                        None
                    } else {
                        parse_status_rest(
                            QueueSource::Playlist(playlist.to_owned()),
                            request_id,
                            tail,
                        )
                    }
                },
                None => None,
            }
        },
        _ => None,
    }
}

fn make_known<T: View>(status: Option<T>) -> (r: Option<Option<T>>)
    ensures
        view_known(r) == known(view_opt(status)),
{
    match status {
        Some(status) => Some(Some(status)),
        None => None,
    }
}

/// Reads the answer to `QUEUE_STATUS`.
pub fn daemon_queue_status(reply: &str) -> (r: Option<Option<QueueStatus>>)
    ensures
        view_known(r) == queue_status_in(reply@),
{
    if same(reply, "QUEUE NONE") {
        Some(None)
    } else if let Some(rest) = strip_prefix(reply, "QUEUE LIKED ") {
        make_known(parse_status_numbered(QueueSource::Liked, rest))
    } else if let Some(rest) = strip_prefix(reply, "QUEUE PLAYLIST ") {
        make_known(parse_status_of_playlist(rest))
    } else if let Some(rest) = strip_prefix(reply, "QUEUE SEARCH ") {
        make_known(parse_status_numbered(QueueSource::Search, rest))
    } else {
        None
    }
}

/// One turn of the play order.
pub struct QueuePageItem {
    pub position: usize,
    pub source_index: usize,
    pub track_id: String,
}

pub struct ItemView {
    pub position: usize,
    pub source_index: usize,
    pub track_id: Seq<char>,
}

impl View for QueuePageItem {
    type V = ItemView;

    open spec fn view(&self) -> ItemView {
        ItemView {
            position: self.position,
            source_index: self.source_index,
            track_id: self.track_id@,
        }
    }
}

/// A page of the play order.
pub struct QueuePage {
    pub source: QueueSource,
    pub current_position: usize,
    pub total: usize,
    pub start: usize,
    pub items: Vec<QueuePageItem>,
}

pub struct PageView {
    pub source: SourceView,
    pub current_position: usize,
    pub total: usize,
    pub start: usize,
    pub items: Seq<ItemView>,
}

impl View for QueuePage {
    type V = PageView;

    open spec fn view(&self) -> PageView {
        PageView {
            source: self.source@,
            current_position: self.current_position,
            total: self.total,
            start: self.start,
            items: views(self.items@),
        }
    }
}

impl PageView {
    /// The page lies within the play order, and so does what it lists.
    pub open spec fn wf(self) -> bool {
        &&& self.current_position < self.total
        &&& self.start <= self.total
        &&& self.items.len() <= VISIBLE_ROWS
        &&& forall|i: int| 0 <= i < self.items.len() ==> (#[trigger] self.items[i]).position < self.total
    }
}

/// The source that the head line of a page names.
pub open spec fn source_named(word: Seq<char>) -> Option<SourceView> {
    if word == "LIKED"@ {
        Some(SourceView::Liked)
    } else if word == "SEARCH"@ {
        Some(SourceView::Search)
    } else {
        match without_prefix(word, "PLAYLIST:"@) {
            Some(id) => if id.len() > 0 {
                Some(SourceView::Playlist(id))
            } else {
                None
            },
            None => None,
        }
    }
}

/// The turn that a line of a page lists, within a queue of `total` turns.
pub open spec fn item_in(line: Seq<char>, total: nat) -> Option<ItemView> {
    let fields = words(line);
    if fields.len() != 4 || fields[0] != "ITEM"@ {
        None
    } else {
        match (number(fields[1], usize::MAX as nat), number(fields[2], usize::MAX as nat)) {
            (Some(position), Some(source_index)) => if position < total {
                Some(
                    ItemView {
                        position: position as usize,
                        source_index: source_index as usize,
                        track_id: fields[3],
                    },
                )
            } else {
                None
            },
            _ => None,
        }
    }
}

/// The turns that lines list, if each of them lists one.
pub open spec fn items_in(lines: Seq<Seq<char>>, total: nat) -> Option<Seq<ItemView>>
    decreases lines.len(),
{
    if lines.len() == 0 {
        Some(seq![])
    } else {
        match (items_in(lines.drop_last(), total), item_in(lines.last(), total)) {
            (Some(items), Some(item)) => Some(items.push(item)),
            _ => None,
        }
    }
}

/// A page from the words of its head line and the lines behind it.
pub open spec fn page_in(head: Seq<Seq<char>>, rest: Seq<Seq<char>>) -> Option<PageView> {
    if head.len() != 7 || head[0] != "QUEUE_PAGE"@ {
        None
    } else {
        match (
            source_named(head[1]),
            number(head[2], u64::MAX as nat),
            number(head[3], usize::MAX as nat),
            number(head[4], usize::MAX as nat),
            number(head[5], usize::MAX as nat),
            number(head[6], usize::MAX as nat),
        ) {
            (Some(source), Some(_), Some(position), Some(total), Some(start), Some(count)) => {
                if position < total && start <= total && count <= VISIBLE_ROWS {
                    match items_in(rest, total) {
                        Some(items) => if items.len() == count {
                            Some(
                                PageView {
                                    source,
                                    current_position: position as usize,
                                    total: total as usize,
                                    start: start as usize,
                                    items,
                                },
                            )
                        } else {
                            None
                        },
                        None => None,
                    }
                } else {
                    None
                }
            },
            _ => None,
        }
    }
}

/// The page in the answer to `QUEUE_PAGE`.
pub open spec fn queue_page_in(reply: Seq<char>) -> Option<Option<PageView>> {
    if reply == "QUEUE_PAGE NONE"@ {
        Some(None)
    } else if lines(reply).len() == 0 {
        None
    } else {
        known(page_in(words(lines(reply)[0]), lines(reply).skip(1)))
    }
}

fn parse_source(word: &str) -> (r: Option<QueueSource>)
    ensures
        view_opt(r) == source_named(word@),
{
    if same(word, "LIKED") {
        Some(QueueSource::Liked)
    } else if same(word, "SEARCH") {
        Some(QueueSource::Search)
    } else if let Some(id) = strip_prefix(word, "PLAYLIST:") {
        if id.is_empty() {
            None
        } else {
            Some(QueueSource::Playlist(id.to_owned()))
        }
    } else {
        None
    }
}

fn parse_item(line: &str, total: usize) -> (r: Option<QueuePageItem>)
    ensures
        view_opt(r) == item_in(line@, total as nat),
{
    let fields = split_words(line);
    let ghost all = words(line@);
    assert(fields@.len() == all.len());
    if fields.len() != 4 {
        return None;
    }
    assert(fields@[0]@ == all[0] && fields@[1]@ == all[1] && fields@[2]@ == all[2]);
    assert(fields@[3]@ == all[3]);
    if !same(fields[0], "ITEM") {
        return None;
    }
    match (parse_usize(fields[1]), parse_usize(fields[2])) {
        (Some(position), Some(source_index)) => {
            if position < total {
                Some(QueuePageItem { position, source_index, track_id: fields[3].to_owned() })
            } else {
                None
            }
        },
        _ => None,
    }
}

/// One unreadable line spoils a page.
proof fn lemma_items_fail(lines: Seq<Seq<char>>, total: nat, n: int)
    requires
        0 <= n < lines.len(),
        item_in(lines[n], total) is None,
    ensures
        items_in(lines, total) is None,
    decreases lines.len(),
{
    if n < lines.len() - 1 {
        lemma_items_fail(lines.drop_last(), total, n);
    }
}

/// Reads the answer to `QUEUE_PAGE`.
pub fn daemon_queue_page(reply: &str) -> (r: Option<Option<QueuePage>>)
    ensures
        view_known(r) == queue_page_in(reply@),
        r matches Some(Some(page)) ==> page@.wf(),
{
    if same(reply, "QUEUE_PAGE NONE") {
        return Some(None);
    }
    let all_lines = split_lines(reply);
    let ghost texts = lines(reply@);
    let ghost rest = texts.skip(1);
    assert(all_lines@.len() == texts.len());
    if all_lines.len() == 0 {
        return None;
    }
    assert(all_lines@[0]@ == texts[0]);
    let fields = split_words(all_lines[0]);
    let ghost head = words(texts[0]);
    assert(fields@.len() == head.len());
    if fields.len() != 7 {
        return None;
    }
    assert(fields@[0]@ == head[0] && fields@[1]@ == head[1] && fields@[2]@ == head[2]);
    assert(fields@[3]@ == head[3] && fields@[4]@ == head[4] && fields@[5]@ == head[5]);
    assert(fields@[6]@ == head[6]);
    if !same(fields[0], "QUEUE_PAGE") {
        return None;
    }
    match (
        parse_source(fields[1]),
        parse_u64(fields[2]),
        parse_usize(fields[3]),
        parse_usize(fields[4]),
        parse_usize(fields[5]),
        parse_usize(fields[6]),
    ) {
        (Some(source), Some(_), Some(current_position), Some(total), Some(start), Some(count)) => {
            if current_position >= total || start > total || count > VISIBLE_ROWS {
                return None;
            }
            let mut items: Vec<QueuePageItem> = Vec::new();
            let mut i: usize = 1;
            assert(views(items@) =~= seq![]);
            while i < all_lines.len()
                invariant
                    1 <= i <= all_lines.len(),
                    texts == views(all_lines@),
                    texts == lines(reply@),
                    rest == texts.skip(1),
                    head == words(texts[0]),
                    reply@ != "QUEUE_PAGE NONE"@,
                    items_in(rest.take(i - 1), total as nat) == Some(views(items@)),
                    forall|k: int| 0 <= k < items@.len() ==> (#[trigger] items@[k]).position < total,
                    queue_page_in(reply@) is Some ==> items_in(rest, total as nat) is Some,
                decreases all_lines.len() - i,
            {
                assert(rest.take(i as int).drop_last() =~= rest.take(i - 1));
                assert(rest[i - 1] == all_lines@[i as int]@);
                let ghost before = items@;
                match parse_item(all_lines[i], total) {
                    Some(item) => {
                        items.push(item);
                        assert(views(items@) =~= views(before).push(item@));
                    },
                    None => {
                        proof {
                            lemma_items_fail(rest, total as nat, i - 1);
                        }
                        return None;
                    },
                }
                i += 1;
            }
            assert(rest.take(i - 1) =~= rest);
            assert(views(items@).len() == items.len());
            if items.len() != count {
                return None;
            }
            assert forall|k: int| 0 <= k < views(items@).len() implies (#[trigger] views(items@)[k]).position
                < total by {
                assert(items@[k].position < total);
            }
            Some(Some(QueuePage { source, current_position, total, start, items }))
        },
        _ => None,
    }
}

/// The track in the answer to `NOW_PLAYING`, from its four fields.
pub open spec fn playing_fields(rest: Seq<char>) -> Option<NowPlayingView> {
    match after(rest, '\t') {
        Some(second) => match after(second, '\t') {
            Some(third) => match after(third, '\t') {
                Some(fourth) => match number(trimmed(fourth), u32::MAX as nat) {
                    Some(duration) => if trimmed(before(rest, '\t')).len() > 0 {
                        Some(
                            NowPlayingView {
                                id: trimmed(before(rest, '\t')),
                                title: trimmed(before(second, '\t')),
                                artist: trimmed(before(third, '\t')),
                                duration_ms: duration as u32,
                            },
                        )
                    } else {
                        None
                    },
                    None => None,
                },
                None => None,
            },
            None => None,
        },
        None => None,
    }
}

/// The track in the answer to `NOW_PLAYING`.
pub open spec fn now_playing_in(reply: Seq<char>) -> Option<Option<NowPlayingView>> {
    if reply == "NOW_PLAYING NONE"@ {
        Some(None)
    } else {
        match without_prefix(reply, "NOW_PLAYING "@) {
            Some(rest) => known(playing_fields(rest)),
            None => None,
        }
    }
}

fn parse_playing_fields(rest: &str) -> (r: Option<NowPlaying>)
    ensures
        view_opt(r) == playing_fields(rest@),
{
    if let (id, Some(second)) = split_once(rest, '\t') {
        if let (title, Some(third)) = split_once(second, '\t') {
            if let (artist, Some(fourth)) = split_once(third, '\t') {
                if let Some(duration_ms) = parse_u32(trim(fourth)) {
                    let id = trim(id);
                    if !id.is_empty() {
                        return Some(
                            NowPlaying {
                                id: id.to_owned(),
                                title: trim(title).to_owned(),
                                artist: trim(artist).to_owned(),
                                duration_ms,
                            },
                        );
                    }
                }
            }
        }
    }
    None
}

/// Reads the answer to `NOW_PLAYING`.
pub fn daemon_now_playing(reply: &str) -> (r: Option<Option<NowPlaying>>)
    ensures
        view_known(r) == now_playing_in(reply@),
{
    if same(reply, "NOW_PLAYING NONE") {
        return Some(None);
    }
    match strip_prefix(reply, "NOW_PLAYING ") {
        Some(rest) => make_known(parse_playing_fields(rest)),
        None => None,
    }
}

/// The position in the answer to `POSITION`.
pub open spec fn position_in(reply: Seq<char>) -> Option<Option<u32>> {
    if reply == "POSITION NONE"@ {
        Some(None)
    } else {
        match without_prefix(reply, "POSITION "@) {
            Some(value) => match number(trimmed(value), u32::MAX as nat) {
                Some(ms) => Some(Some(ms as u32)),
                None => None,
            },
            None => None,
        }
    }
}

/// Reads the answer to `POSITION`.
pub fn daemon_playback_position(reply: &str) -> (r: Option<Option<u32>>)
    ensures
        r == position_in(reply@),
{
    if same(reply, "POSITION NONE") {
        return Some(None);
    }
    match strip_prefix(reply, "POSITION ") {
        Some(value) => match parse_u32(trim(value)) {
            Some(ms) => Some(Some(ms)),
            None => None,
        },
        None => None,
    }
}

/// Three texts of a line, each trimmed, a missing one empty.
pub open spec fn three_fields(rest: Seq<char>) -> (Seq<char>, Seq<char>, Seq<char>) {
    match after(rest, '\t') {
        Some(second) => match after(second, '\t') {
            Some(third) => (
                trimmed(before(rest, '\t')),
                trimmed(before(second, '\t')),
                trimmed(third),
            ),
            None => (trimmed(before(rest, '\t')), trimmed(before(second, '\t')), seq![]),
        },
        None => (trimmed(before(rest, '\t')), seq![], seq![]),
    }
}

/// A track that was browsed, or a playlist with its owner.
pub struct Listed {
    pub id: String,
    pub name: String,
    pub by: String,
}

pub struct ListedView {
    pub id: Seq<char>,
    pub name: Seq<char>,
    pub by: Seq<char>,
}

impl View for Listed {
    type V = ListedView;

    open spec fn view(&self) -> ListedView {
        ListedView { id: self.id@, name: self.name@, by: self.by@ }
    }
}

/// The item that a line lists behind a word; none without an id.
pub open spec fn listed_in(line: Seq<char>, word: Seq<char>) -> Option<ListedView> {
    match without_prefix(line, word) {
        Some(rest) => {
            let (id, name, by) = three_fields(rest);
            if id.len() > 0 {
                Some(ListedView { id, name, by })
            } else {
                None
            }
        },
        None => None,
    }
}

/// The items that lines list behind a word. Any other line is passed over.
pub open spec fn all_listed_in(lines: Seq<Seq<char>>, word: Seq<char>) -> Seq<ListedView>
    decreases lines.len(),
{
    if lines.len() == 0 {
        seq![]
    } else {
        let items = all_listed_in(lines.drop_last(), word);
        match listed_in(lines.last(), word) {
            Some(item) => items.push(item),
            None => items,
        }
    }
}

fn split_three<'a>(rest: &'a str) -> (r: (&'a str, &'a str, &'a str))
    ensures
        (r.0@, r.1@, r.2@) == three_fields(rest@),
{
    proof {
        reveal_strlit("");
    }
    let (id, second) = split_once(rest, '\t');
    let nothing: &'a str = "";
    assert(nothing@ =~= seq![]);
    match second {
        Some(second) => {
            let (name, third) = split_once(second, '\t');
            match third {
                Some(third) => (trim(id), trim(name), trim(third)),
                None => (trim(id), trim(name), nothing),
            }
        },
        None => (trim(id), nothing, nothing),
    }
}

fn parse_listed(line: &str, word: &str) -> (r: Option<Listed>)
    ensures
        view_opt(r) == listed_in(line@, word@),
{
    match strip_prefix(line, word) {
        Some(rest) => {
            let (id, name, by) = split_three(rest);
            if id.is_empty() {
                None
            } else {
                Some(Listed { id: id.to_owned(), name: name.to_owned(), by: by.to_owned() })
            }
        },
        None => None,
    }
}

fn parse_all_listed(text: &str, word: &str) -> (r: Vec<Listed>)
    ensures
        views(r@) == all_listed_in(lines(text@), word@),
{
    let all_lines = split_lines(text);
    let ghost texts = lines(text@);
    let mut items: Vec<Listed> = Vec::new();
    let mut i: usize = 0;
    assert(views(items@) =~= seq![]);
    while i < all_lines.len()
        invariant
            i <= all_lines.len(),
            texts == views(all_lines@),
            views(items@) == all_listed_in(texts.take(i as int), word@),
        decreases all_lines.len() - i,
    {
        assert(texts.take(i as int + 1).drop_last() =~= texts.take(i as int));
        let ghost before = items@;
        match parse_listed(all_lines[i], word) {
            Some(item) => {
                items.push(item);
                assert(views(items@) =~= views(before).push(item@));
            },
            None => {},
        }
        i += 1;
    }
    assert(texts.take(i as int) =~= texts);
    items
}

/// The tracks in the answer to a browse command.
pub fn daemon_query(text: &str) -> (r: Vec<Listed>)
    ensures
        views(r@) == all_listed_in(lines(text@), "RESULT "@),
{
    parse_all_listed(text, "RESULT ")
}

/// The playlists in the answer to `PLAYLISTS`.
pub fn daemon_playlist_query(text: &str) -> (r: Vec<Listed>)
    ensures
        views(r@) == all_listed_in(lines(text@), "PLAYLIST "@),
{
    parse_all_listed(text, "PLAYLIST ")
}

/// Whether some line starts with a word.
pub open spec fn has_line_with(text: Seq<char>, word: Seq<char>) -> bool {
    exists|i: int| 0 <= i < lines(text).len() && word.is_prefix_of(#[trigger] lines(text)[i])
}

fn find_line_with(text: &str, word: &str) -> (r: bool)
    ensures
        r == has_line_with(text@, word@),
{
    let all_lines = split_lines(text);
    let ghost texts = lines(text@);
    let mut i: usize = 0;
    while i < all_lines.len()
        invariant
            i <= all_lines.len(),
            texts == views(all_lines@),
            texts == lines(text@),
            forall|k: int| 0 <= k < i ==> !word@.is_prefix_of(#[trigger] texts[k]),
        decreases all_lines.len() - i,
    {
        if starts_with(all_lines[i], word) {
            assert(word@.is_prefix_of(texts[i as int]));
            return true;
        }
        i += 1;
    }
    false
}

/// Whether a list of tracks has come in up to its last line.
pub fn track_list_is_complete(text: &str) -> (r: bool)
    ensures
        r == has_line_with(text@, "END"@),
{
    find_line_with(text, "END")
}

/// Whether a list of playlists has come in up to its last line.
pub fn playlist_list_is_complete(text: &str) -> (r: bool)
    ensures
        r == has_line_with(text@, "END "@),
{
    find_line_with(text, "END ")
}

} // verus!
