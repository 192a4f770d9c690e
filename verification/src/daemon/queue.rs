//! The queue that is playing: where it came from, its tracks, and the place in its order.
use crate::daemon::modes::{PlaybackModes, RepeatMode};
use crate::daemon::order::{is_order, make_play_order, play_order, play_order_is_complete};
use crate::text::{
    append_number, decimal, lemma_place_is, number, parse_usize, place, split_words, view_opt,
    views, words,
};
use vstd::prelude::*;
use vstd::string::*;

verus! {

/// Where the tracks of a queue come from.
pub enum QueueSource {
    Liked,
    Playlist(String),
    Search,
}

pub enum SourceView {
    Liked,
    Playlist(Seq<char>),
    Search,
}

impl View for QueueSource {
    type V = SourceView;

    open spec fn view(&self) -> SourceView {
        match self {
            QueueSource::Liked => SourceView::Liked,
            QueueSource::Playlist(id) => SourceView::Playlist(id@),
            QueueSource::Search => SourceView::Search,
        }
    }
}

/// The tracks of a queue in listed order, and the order in which they play.
pub struct PlaybackQueue {
    pub source: Option<QueueSource>,
    pub track_ids: Vec<String>,
    pub current_index: Option<usize>,
    pub play_order: Vec<usize>,
    pub order_position: Option<usize>,
    pub request_id: u64,
}

pub struct QueueView {
    pub source: Option<SourceView>,
    pub track_ids: Seq<Seq<char>>,
    pub current_index: Option<usize>,
    pub play_order: Seq<usize>,
    pub order_position: Option<usize>,
    pub request_id: u64,
}

impl View for PlaybackQueue {
    type V = QueueView;

    open spec fn view(&self) -> QueueView {
        QueueView {
            source: view_opt(self.source),
            track_ids: views(self.track_ids@),
            current_index: self.current_index,
            play_order: self.play_order@,
            order_position: self.order_position,
            request_id: self.request_id,
        }
    }
}

/// The queue that holds nothing.
pub open spec fn idle() -> QueueView {
    QueueView {
        source: None,
        track_ids: seq![],
        current_index: None,
        play_order: seq![],
        order_position: None,
        request_id: 0,
    }
}

impl QueueView {
    /// Either nothing is queued, or every track has one turn in the play order and the
    /// current track is the one whose turn it is.
    pub open spec fn wf(self) -> bool {
        match self.current_index {
            None => self == idle(),
            Some(index) => {
                &&& self.source is Some
                &&& is_order(self.play_order, self.track_ids.len())
                &&& self.track_ids.len() <= usize::MAX
                &&& self.order_position is Some
                &&& self.order_position->0 < self.play_order.len()
                &&& self.play_order[self.order_position->0 as int] == index
            },
        }
    }

    /// The id of the current track.
    pub open spec fn current(self) -> Option<Seq<char>> {
        match self.current_index {
            Some(index) => Some(self.track_ids[index as int]),
            None => None,
        }
    }

    /// The turn that follows, or that came before. Past either end there is one only
    /// when all of the queue repeats.
    pub open spec fn target(self, forward: bool, repeat: RepeatMode) -> Option<usize> {
        match self.order_position {
            None => None,
            Some(position) => if forward {
                if position + 1 < self.play_order.len() {
                    Some((position + 1) as usize)
                } else if repeat == RepeatMode::All {
                    Some(0)
                } else {
                    None
                }
            } else if position > 0 {
                Some((position - 1) as usize)
            } else if repeat == RepeatMode::All {
                Some((self.play_order.len() - 1) as usize)
            } else {
                None
            },
        }
    }

    /// The turn that comes when the current track has ended.
    pub open spec fn target_after_end(self, repeat: RepeatMode) -> Option<usize> {
        if repeat == RepeatMode::One {
            self.order_position
        } else {
            self.target(true, repeat)
        }
    }

    /// The track whose turn it is at a position of the play order.
    pub open spec fn track_at(self, position: usize) -> Seq<char> {
        self.track_ids[self.play_order[position as int] as int]
    }

    /// The queue when it is the turn of a position of the play order.
    pub open spec fn moved_to(self, position: usize) -> QueueView {
        QueueView {
            current_index: Some(self.play_order[position as int]),
            order_position: Some(position),
            ..self
        }
    }

    /// The queue in a new play order that keeps the current track.
    pub open spec fn reordered(self, order: Seq<usize>) -> QueueView {
        QueueView {
            play_order: order,
            order_position: Some(place(order, self.current_index->0)->0 as usize),
            ..self
        }
    }
}

/// A queue that starts with the track at `index`.
pub open spec fn started(
    source: SourceView,
    track_ids: Seq<Seq<char>>,
    index: usize,
    order: Seq<usize>,
    request_id: u64,
) -> QueueView {
    QueueView {
        source: Some(source),
        track_ids,
        current_index: Some(index),
        play_order: order,
        order_position: Some(place(order, index)->0 as usize),
        request_id,
    }
}

/// Where an index has its turn in an order that holds it.
fn position_of(order: &Vec<usize>, index: usize) -> (r: usize)
    requires
        order@.contains(index),
    ensures
        place(order@, index) == Some(r as nat),
        r < order.len(),
        order@[r as int] == index,
{
    let mut i: usize = 0;
    let ghost at = choose|k: int| 0 <= k < order.len() && order@[k] == index;
    while order[i] != index
        invariant
            0 <= at < order.len(),
            order@[at] == index,
            i <= at,
            forall|k: int| 0 <= k < i ==> #[trigger] order@[k] != index,
        decreases order.len() - i,
    {
        i += 1;
    }
    proof {
        lemma_place_is(order@, index, i as int);
    }
    i
}

/// Of as many distinct indices as there are, none is missing.
proof fn lemma_order_holds_all(order: Seq<usize>, len: nat, index: usize)
    requires
        is_order(order, len),
        index < len,
    ensures
        order.contains(index),
{
    let numbers = vstd::set_lib::set_int_range(0, len as int);
    let held = order.map_values(|i: usize| i as int);
    assert(held.no_duplicates());
    held.unique_seq_to_set();
    vstd::set_lib::lemma_int_range(0, len as int);
    assert(held.to_set().subset_of(numbers)) by {
        assert forall|x: int| held.to_set().contains(x) implies numbers.contains(x) by {
            let k = choose|k: int| 0 <= k < held.len() && held[k] == x;
            assert(order[k] < len);
        }
    }
    vstd::set_lib::lemma_subset_equality(held.to_set(), numbers);
    assert(numbers.contains(index as int));
    assert(held.to_set().contains(index as int));
    let k = choose|k: int| 0 <= k < held.len() && held[k] == index as int;
    assert(order[k] == index);
}

impl Default for PlaybackQueue {
    /// The queue that holds nothing.
    fn default() -> (r: PlaybackQueue)
        ensures
            r@ == idle(),
            r@.wf(),
    {
        let r = PlaybackQueue {
            source: None,
            track_ids: Vec::new(),
            current_index: None,
            play_order: Vec::new(),
            order_position: None,
            request_id: 0,
        };
        assert(r@.track_ids =~= seq![]);
        assert(r@.play_order =~= seq![]);
        r
    }
}

impl PlaybackQueue {
    /// A queue that starts with the track at `index`, in the order that the modes give.
    pub fn start(
        source: QueueSource,
        track_ids: Vec<String>,
        index: usize,
        request_id: u64,
        modes: &mut PlaybackModes,
    ) -> (r: PlaybackQueue)
        requires
            index < track_ids.len(),
        ensures
            ({
                let made = play_order(
                    track_ids.len() as nat,
                    index,
                    old(modes).shuffle,
                    old(modes).shuffle_seed,
                );
                &&& r@ == started(source@, views(track_ids@), index, made.0, request_id)
                &&& *final(modes) == (PlaybackModes { shuffle_seed: made.1, ..*old(modes) })
            }),
            r@.wf(),
    {
        let shuffle = modes.shuffle;
        let len: usize = track_ids.len();
        proof {
            play_order_is_complete(len as nat, index, shuffle, modes.shuffle_seed);
        }
        let play_order = make_play_order(len, index, shuffle, &mut modes.shuffle_seed);
        proof {
            lemma_order_holds_all(play_order@, len as nat, index);
        }
        let position: usize = position_of(&play_order, index);
        PlaybackQueue {
            source: Some(source),
            track_ids,
            current_index: Some(index),
            play_order,
            order_position: Some(position),
            request_id,
        }
    }

    /// The turn that follows, or that came before.
    pub fn target(&self, forward: bool, repeat: RepeatMode) -> (r: Option<usize>)
        requires
            self@.wf(),
        ensures
            r == self@.target(forward, repeat),
            r is Some ==> self@.current_index is Some && r->0 < self@.play_order.len(),
    {
        match self.order_position {
            None => None,
            Some(position) => {
                if forward {
                    if position + 1 < self.play_order.len() {
                        Some(position + 1)
                    } else if repeat == RepeatMode::All {
                        Some(0)
                    } else {
                        None
                    }
                } else if position > 0 {
                    Some(position - 1)
                } else if repeat == RepeatMode::All {
                    Some(self.play_order.len() - 1)
                } else {
                    None
                }
            },
        }
    }

    /// The turn that comes when the current track has ended.
    pub fn target_after_end(&self, repeat: RepeatMode) -> (r: Option<usize>)
        requires
            self@.wf(),
        ensures
            r == self@.target_after_end(repeat),
            r is Some ==> self@.current_index is Some && r->0 < self@.play_order.len(),
    {
        if repeat == RepeatMode::One {
            self.order_position
        } else {
            self.target(true, repeat)
        }
    }

    /// The id of the track whose turn it is at a position of the play order.
    pub fn track_at(&self, position: usize) -> (r: String)
        requires
            self@.wf(),
            position < self@.play_order.len(),
        ensures
            r@ == self@.track_at(position),
    {
        let index: usize = self.play_order[position];
        assert(self@.track_ids[index as int] == self.track_ids@[index as int]@);
        self.track_ids[index].clone()
    }

    /// The id of the current track.
    pub fn current(&self) -> (r: Option<String>)
        requires
            self@.wf(),
        ensures
            view_opt(r) == self@.current(),
    {
        match self.current_index {
            Some(index) => {
                assert(self@.play_order[self@.order_position->0 as int] == index);
                assert(self@.track_ids[index as int] == self.track_ids@[index as int]@);
                Some(self.track_ids[index].clone())
            },
            None => None,
        }
    }

    /// Makes it the turn of a position of the play order.
    pub fn move_to(&mut self, position: usize)
        requires
            old(self)@.wf(),
            position < old(self)@.play_order.len(),
        ensures
            final(self)@ == old(self)@.moved_to(position),
            final(self)@.wf(),
    {
        let index: usize = self.play_order[position];
        self.current_index = Some(index);
        self.order_position = Some(position);
    }

    /// Gives the queue the play order of a changed shuffle mode. The current track stays.
    pub fn reorder(&mut self, modes: &mut PlaybackModes)
        requires
            old(self)@.wf(),
        ensures
            match old(self)@.current_index {
                None => final(self)@ == old(self)@ && *final(modes) == *old(modes),
                Some(index) => {
                    let made = play_order(
                        old(self)@.track_ids.len(),
                        index,
                        old(modes).shuffle,
                        old(modes).shuffle_seed,
                    );
                    &&& final(self)@ == old(self)@.reordered(made.0)
                    &&& *final(modes) == (PlaybackModes { shuffle_seed: made.1, ..*old(modes) })
                },
            },
            final(self)@.wf(),
    {
        match self.current_index {
            None => {},
            Some(index) => {
                let len: usize = self.track_ids.len();
                let shuffle = modes.shuffle;
                assert(self@.play_order[self@.order_position->0 as int] == index);
                proof {
                    play_order_is_complete(len as nat, index, shuffle, modes.shuffle_seed);
                }
                let order = make_play_order(len, index, shuffle, &mut modes.shuffle_seed);
                proof {
                    lemma_order_holds_all(order@, len as nat, index);
                }
                self.order_position = Some(position_of(&order, index));
                self.play_order = order;
            },
        }
    }
}

/// What `QUEUE_STATUS` is answered.
pub open spec fn queue_status_reply(q: QueueView) -> Seq<char> {
    match (q.source, q.current_index) {
        (Some(source), Some(index)) => {
            let head = match source {
                SourceView::Liked => "QUEUE LIKED "@ + decimal(q.request_id as nat),
                SourceView::Playlist(id) => "QUEUE PLAYLIST "@ + decimal(q.request_id as nat) + " "@
                    + id,
                SourceView::Search => "QUEUE SEARCH "@ + decimal(q.request_id as nat),
            };
            head + " "@ + decimal(index as nat) + " "@ + decimal(q.track_ids.len()) + " "@
                + q.track_ids[index as int] + "\n"@
        },
        _ => "QUEUE NONE\n"@,
    }
}

/// The source of a queue as the head line of a page names it.
pub open spec fn source_label(source: SourceView) -> Seq<char> {
    match source {
        SourceView::Liked => "LIKED"@,
        SourceView::Playlist(id) => "PLAYLIST:"@ + id,
        SourceView::Search => "SEARCH"@,
    }
}

/// The line of a page for one turn of the play order.
pub open spec fn item_line(q: QueueView, position: int) -> Seq<char> {
    "ITEM "@ + decimal(position as nat) + " "@ + decimal(q.play_order[position] as nat) + " "@
        + q.track_ids[q.play_order[position] as int] + "\n"@
}

/// The lines of a page from one turn up to another.
pub open spec fn item_lines(q: QueueView, start: int, end: int) -> Seq<char>
    decreases end - start,
{
    if end <= start {
        seq![]
    } else {
        item_lines(q, start, end - 1) + item_line(q, end - 1)
    }
}

/// Where a page starts: at the offset asked for, or at the end of the queue.
pub open spec fn page_start(q: QueueView, offset: nat) -> int {
    if offset < q.play_order.len() {
        offset as int
    } else {
        q.play_order.len() as int
    }
}

/// Where a page ends.
pub open spec fn page_end(q: QueueView, offset: nat, limit: nat) -> int {
    if page_start(q, offset) + limit < q.play_order.len() {
        page_start(q, offset) + limit
    } else {
        q.play_order.len() as int
    }
}

/// A page of the play order.
pub open spec fn queue_page_reply(q: QueueView, offset: nat, limit: nat) -> Seq<char> {
    match (q.source, q.order_position) {
        (Some(source), Some(position)) => {
            let start = page_start(q, offset);
            let end = page_end(q, offset, limit);
            "QUEUE_PAGE "@ + source_label(source) + " "@ + decimal(q.request_id as nat) + " "@
                + decimal(position as nat) + " "@ + decimal(q.play_order.len()) + " "@ + decimal(
                start as nat,
            ) + " "@ + decimal((end - start) as nat) + "\n"@ + item_lines(q, start, end)
        },
        _ => "QUEUE_PAGE NONE\n"@,
    }
}

/// The offset and the limit that `QUEUE_PAGE` asks for. A page has 1 to 9 items.
pub open spec fn page_request(arg: Seq<char>) -> Option<(nat, nat)> {
    let args = words(arg);
    if args.len() != 2 {
        None
    } else {
        match (number(args[0], usize::MAX as nat), number(args[1], usize::MAX as nat)) {
            (Some(offset), Some(limit)) => if 1 <= limit <= 9 {
                Some((offset, limit))
            } else {
                None
            },
            _ => None,
        }
    }
}

impl PlaybackQueue {
    /// The answer to `QUEUE_STATUS`.
    pub fn status(&self) -> (r: String)
        requires
            self@.wf(),
        ensures
            r@ == queue_status_reply(self@),
    {
        match (&self.source, self.current_index) {
            (Some(source), Some(index)) => {
                assert(self@.play_order[self@.order_position->0 as int] == index);
                assert(self@.track_ids[index as int] == self.track_ids@[index as int]@);
                let mut text: String;
                match source {
                    QueueSource::Liked => {
                        text = "QUEUE LIKED ".to_owned();
                        append_number(&mut text, self.request_id);
                    },
                    QueueSource::Playlist(id) => {
                        text = "QUEUE PLAYLIST ".to_owned();
                        append_number(&mut text, self.request_id);
                        text.append(" ");
                        text.append(id.as_str());
                    },
                    QueueSource::Search => {
                        text = "QUEUE SEARCH ".to_owned();
                        append_number(&mut text, self.request_id);
                    },
                }
                text.append(" ");
                append_number(&mut text, index as u64);
                text.append(" ");
                append_number(&mut text, self.track_ids.len() as u64);
                text.append(" ");
                text.append(self.track_ids[index].as_str());
                text.append("\n");
                text
            },
            _ => "QUEUE NONE\n".to_owned(),
        }
    }

    /// A page of the play order.
    pub fn page(&self, offset: usize, limit: usize) -> (r: String)
        requires
            self@.wf(),
        ensures
            r@ == queue_page_reply(self@, offset as nat, limit as nat),
    {
        match (&self.source, self.order_position) {
            (Some(source), Some(position)) => {
                let total: usize = self.play_order.len();
                let start: usize = if offset < total { offset } else { total };
                let end: usize = if limit < total - start { start + limit } else { total };
                let mut text = "QUEUE_PAGE ".to_owned();
                let mut label: String;
                match source {
                    QueueSource::Liked => {
                        label = "LIKED".to_owned();
                    },
                    QueueSource::Playlist(id) => {
                        label = "PLAYLIST:".to_owned();
                        label.append(id.as_str());
                    },
                    QueueSource::Search => {
                        label = "SEARCH".to_owned();
                    },
                }
                text.append(label.as_str());
                text.append(" ");
                append_number(&mut text, self.request_id);
                text.append(" ");
                append_number(&mut text, position as u64);
                text.append(" ");
                append_number(&mut text, total as u64);
                text.append(" ");
                append_number(&mut text, start as u64);
                text.append(" ");
                append_number(&mut text, (end - start) as u64);
                text.append("\n");
                let ghost head = text@;
                let mut at: usize = start;
                assert(text@ =~= head + item_lines(self@, start as int, at as int));
                while at < end
                    invariant
                        start <= at <= end <= self@.play_order.len(),
                        self@.wf(),
                        self@.current_index is Some,
                        text@ =~= head + item_lines(self@, start as int, at as int),
                    decreases end - at,
                {
                    let index: usize = self.play_order[at];
                    assert(self@.track_ids[index as int] == self.track_ids@[index as int]@);
                    let mut line = "ITEM ".to_owned();
                    append_number(&mut line, at as u64);
                    line.append(" ");
                    append_number(&mut line, index as u64);
                    line.append(" ");
                    line.append(self.track_ids[index].as_str());
                    line.append("\n");
                    text.append(line.as_str());
                    at += 1;
                }
                text
            },
            _ => "QUEUE_PAGE NONE\n".to_owned(),
        }
    }
}

/// Reads the offset and the limit that `QUEUE_PAGE` asks for.
pub fn parse_page_request(arg: &str) -> (r: Option<(usize, usize)>)
    ensures
        match r {
            Some((offset, limit)) => page_request(arg@) == Some((offset as nat, limit as nat)),
            None => page_request(arg@) is None,
        },
{
    let args = split_words(arg);
    assert(args@.len() == words(arg@).len());
    if args.len() != 2 {
        return None;
    }
    assert(args@[0]@ == words(arg@)[0]);
    assert(args@[1]@ == words(arg@)[1]);
    match (parse_usize(args[0]), parse_usize(args[1])) {
        (Some(offset), Some(limit)) => {
            if 1 <= limit && limit <= 9 {
                Some((offset, limit))
            } else {
                None
            }
        },
        _ => None,
    }
}

/// Whatever turn is taken, the queue stays well formed.
pub proof fn turns_keep_the_queue(q: QueueView, forward: bool, repeat: RepeatMode)
    requires
        q.wf(),
        q.target(forward, repeat) is Some,
    ensures
        q.moved_to(q.target(forward, repeat)->0).wf(),
        q.moved_to(q.target(forward, repeat)->0).current() == Some(
            q.track_at(q.target(forward, repeat)->0),
        ),
{
}

/// Going back after going on, or on after going back, is at the same track again.
pub proof fn steps_undo_each_other(q: QueueView, forward: bool, repeat: RepeatMode)
    requires
        q.wf(),
        q.target(forward, repeat) is Some,
    ensures
        ({
            let there = q.moved_to(q.target(forward, repeat)->0);
            &&& there.target(!forward, repeat) == q.order_position
            &&& there.moved_to(there.target(!forward, repeat)->0) == q
        }),
{
}

/// Where all of the queue repeats, a queue that plays has a turn on either side.
pub proof fn repeat_all_has_no_boundary(q: QueueView, forward: bool)
    requires
        q.wf(),
        q.current_index is Some,
    ensures
        q.target(forward, RepeatMode::All) is Some,
{
}

/// Where one track repeats, the end of a track leads to the same track.
pub proof fn repeat_one_stays(q: QueueView)
    requires
        q.wf(),
        q.current_index is Some,
    ensures
        q.target_after_end(RepeatMode::One) is Some,
        q.moved_to(q.target_after_end(RepeatMode::One)->0) == q,
{
}

/// The queue after `n` tracks have played to their end.
pub open spec fn played_on(q: QueueView, repeat: RepeatMode, n: nat) -> QueueView
    decreases n,
{
    if n == 0 {
        q
    } else {
        let before = played_on(q, repeat, (n - 1) as nat);
        before.moved_to(before.target_after_end(repeat)->0)
    }
}

/// From the first turn of the play order, the tracks play in that order, none is left
/// out, and behind the last one there is no turn unless the queue repeats.
pub proof fn tracks_play_in_order(q: QueueView, repeat: RepeatMode, n: nat)
    requires
        q.wf(),
        q.order_position == Some(0usize),
        repeat != RepeatMode::One,
        n < q.play_order.len(),
    ensures
        played_on(q, repeat, n) == q.moved_to(n as usize),
        played_on(q, repeat, n).current() == Some(q.track_at(n as usize)),
        n + 1 == q.play_order.len() ==> played_on(q, repeat, n).target_after_end(repeat) == (
        if repeat == RepeatMode::All {
            Some(0usize)
        } else {
            None
        }),
    decreases n,
{
    if n > 0 {
        tracks_play_in_order(q, repeat, (n - 1) as nat);
    }
}

/// Two pages of which the second starts where the first ends list the same turns as one.
pub proof fn pages_join(q: QueueView, start: int, middle: int, end: int)
    requires
        start <= middle <= end,
    ensures
        item_lines(q, start, middle) + item_lines(q, middle, end) == item_lines(q, start, end),
    decreases end - middle,
{
    if middle < end {
        pages_join(q, start, middle, end - 1);
        assert(item_lines(q, start, middle) + item_lines(q, middle, end) =~= (item_lines(
            q,
            start,
            middle,
        ) + item_lines(q, middle, end - 1)) + item_line(q, end - 1));
    } else {
        assert(item_lines(q, start, middle) + item_lines(q, middle, end) =~= item_lines(
            q,
            start,
            end,
        ));
    }
}

} // verus!
