//! The control protocol: one command line in, one answer out.
use crate::daemon::load::{
    bad_track, bad_track_text, registered, stale_text, tell, told, Act, ActView, LoadRequest,
    Reply, ReplyView, RequestView,
};
use crate::daemon::modes::{
    modes_of, modes_reply, modes_text, on_off, on_off_key, repeat_key, report_modes,
    save_playback_modes, saved_modes_load_again, PlaybackModes, RepeatMode,
};
use crate::daemon::order::{play_order, play_order_keeps_random};
use crate::daemon::queue::{
    idle, page_request, parse_page_request, queue_page_reply, queue_status_reply, PlaybackQueue,
    steps_undo_each_other, QueueSource, SourceView,
};
use crate::daemon::state::{state_label, Daemon, DaemonView, NowPlayingView};
use crate::daemon::volume::{level_of, louder, percent, quieter, vol_level, vol_percent, FULL, STEP};
use crate::media::{bad_id_text, base62_id, id_from_base62};
use crate::text::{
    after, append_number, before, capitals, decimal, is_ascii, join, joined, lemma_place_is, lines,
    number, parse_u32, parse_u64, same, split_once, split_words, to_uppercase, trim, trimmed,
    uppercase, view_opt, words,
};
use vstd::prelude::*;
use vstd::string::*;

verus! {

/// A list of tracks to fetch and show.
pub enum Listing {
    /// The results of a search, by the URI of its context.
    Search(String),
    Liked,
    /// A playlist, as it was named.
    Playlist(String),
}

pub enum ListingView {
    Search(Seq<char>),
    Liked,
    Playlist(Seq<char>),
}

impl View for Listing {
    type V = ListingView;

    open spec fn view(&self) -> ListingView {
        match self {
            Listing::Search(uri) => ListingView::Search(uri@),
            Listing::Liked => ListingView::Liked,
            Listing::Playlist(arg) => ListingView::Playlist(arg@),
        }
    }
}

/// What is to be done about a command.
pub enum Outcome {
    /// Answer it.
    Answer(Reply),
    /// Let the request wait for its turn.
    Queue(LoadRequest),
    /// Fetch a list of tracks.
    List(Listing),
    /// Fetch the playlists of the user's profile.
    Profile,
}

pub enum OutcomeView {
    Answer(ReplyView),
    Queue(RequestView),
    List(ListingView),
    Profile,
}

impl View for Outcome {
    type V = OutcomeView;

    open spec fn view(&self) -> OutcomeView {
        match self {
            Outcome::Answer(reply) => OutcomeView::Answer(reply@),
            Outcome::Queue(request) => OutcomeView::Queue(request@),
            Outcome::List(listing) => OutcomeView::List(listing@),
            Outcome::Profile => OutcomeView::Profile,
        }
    }
}

/// An answer with something that the player is told.
pub open spec fn acted(text: Seq<char>, act: ActView) -> ReplyView {
    ReplyView { text, act }
}

/// The word of a line that names the command, and what stands behind it; nothing of a
/// blank line.
pub open spec fn command_parts(line: Seq<char>) -> Option<(Seq<char>, Seq<char>)> {
    let line = trimmed(line);
    if line.len() == 0 {
        None
    } else {
        Some(
            (
                before(line, ' '),
                match after(line, ' ') {
                    Some(rest) => trimmed(rest),
                    None => seq![],
                },
            ),
        )
    }
}

/// Splits a line into the word that names the command and what stands behind it.
pub fn split_command<'a>(line: &'a str) -> (r: Option<(&'a str, &'a str)>)
    ensures
        match r {
            Some((word, arg)) => command_parts(line@) == Some((word@, arg@)),
            None => command_parts(line@) is None,
        },
{
    let line = trim(line);
    if line.is_empty() {
        return None;
    }
    let (word, rest) = split_once(line, ' ');
    match rest {
        Some(rest) => Some((word, trim(rest))),
        None => {
            let nothing: &'a str = "";
            proof {
                reveal_strlit("");
            }
            assert(nothing@ =~= seq![]);
            Some((word, nothing))
        },
    }
}

/// `LOAD`: the one track with the given id, without a queue.
pub open spec fn load(d: DaemonView, arg: Seq<char>) -> (DaemonView, ReplyView) {
    match base62_id(arg) {
        Some(id) => (
            DaemonView { queue: idle(), ..d },
            acted("OK loading "@ + arg + "\n"@, ActView::Load(id)),
        ),
        None => (d, told(bad_track_text(arg))),
    }
}

/// The request that `LOAD_LIKED` or `LOAD_SEARCH` makes.
pub open spec fn track_request(source: SourceView, arg: Seq<char>) -> Option<RequestView> {
    let args = words(arg);
    if args.len() != 2 {
        None
    } else {
        match number(args[0], u64::MAX as nat) {
            Some(n) => Some(
                RequestView { source, request_id: n as u64, track_id: args[1] },
            ),
            None => None,
        }
    }
}

/// The request that `LOAD_PLAYLIST` makes.
pub open spec fn playlist_request(arg: Seq<char>) -> Option<RequestView> {
    let args = words(arg);
    if args.len() != 3 {
        None
    } else {
        match number(args[0], u64::MAX as nat) {
            Some(n) => Some(
                RequestView {
                    source: SourceView::Playlist(args[1]),
                    request_id: n as u64,
                    track_id: args[2],
                },
            ),
            None => None,
        }
    }
}

/// A request comes in: it is answered if it is malformed or stale, otherwise it waits
/// for its turn.
pub open spec fn enqueued(d: DaemonView, request: Option<RequestView>, usage: Seq<char>) -> (
    DaemonView,
    OutcomeView,
) {
    match request {
        None => (d, OutcomeView::Answer(told(usage))),
        Some(request) => {
            let (next, accepted) = registered(d, request.request_id);
            if accepted {
                (next, OutcomeView::Queue(request))
            } else {
                (next, OutcomeView::Answer(told(stale_text(request.request_id))))
            }
        },
    }
}

pub open spec fn direction(forward: bool) -> Seq<char> {
    if forward {
        "next"@
    } else {
        "previous"@
    }
}

/// `NEXT` and `PREVIOUS`.
pub open spec fn stepped(d: DaemonView, forward: bool) -> (DaemonView, ReplyView) {
    match d.queue.target(forward, d.modes.repeat) {
        None => (d, told("OK queue boundary\n"@)),
        Some(position) => {
            let track = d.queue.track_at(position);
            match base62_id(track) {
                Some(id) => (
                    DaemonView { queue: d.queue.moved_to(position), ..d },
                    acted(
                        "OK loading "@ + direction(forward) + " "@ + decimal(
                            d.queue.play_order[position as int] as nat,
                        ) + " "@ + track + "\n"@,
                        ActView::Load(id),
                    ),
                ),
                None => (
                    d,
                    told("ERR bad queued track id '"@ + track + "': "@ + bad_id_text() + "\n"@),
                ),
            }
        },
    }
}

/// `SET_SHUFFLE` with its argument in capitals. The track that plays keeps playing.
pub open spec fn shuffle_set(d: DaemonView, word: Seq<char>) -> (DaemonView, ReplyView) {
    if word != "ON"@ && word != "OFF"@ {
        (d, told("ERR SET_SHUFFLE needs ON or OFF\n"@))
    } else {
        let on = word == "ON"@;
        let modes = PlaybackModes { shuffle: on, ..d.modes };
        let next = match d.queue.current_index {
            None => DaemonView { modes, ..d },
            Some(index) => {
                let (order, seed) = play_order(
                    d.queue.track_ids.len(),
                    index,
                    on,
                    d.modes.shuffle_seed,
                );
                DaemonView {
                    queue: d.queue.reordered(order),
                    modes: PlaybackModes { shuffle_seed: seed, ..modes },
                    ..d
                }
            },
        };
        (
            next,
            acted(
                "OK shuffle "@ + on_off(on) + "\n"@,
                ActView::SaveModes(modes_text(next.modes)),
            ),
        )
    }
}

/// The repeat mode that a word in capitals names.
pub open spec fn repeat_named(word: Seq<char>) -> Option<RepeatMode> {
    if word == "OFF"@ {
        Some(RepeatMode::Off)
    } else if word == "ALL"@ {
        Some(RepeatMode::All)
    } else if word == "ONE"@ {
        Some(RepeatMode::One)
    } else {
        None
    }
}

/// `SET_REPEAT` with its argument in capitals.
pub open spec fn repeat_set(d: DaemonView, word: Seq<char>) -> (DaemonView, ReplyView) {
    match repeat_named(word) {
        None => (d, told("ERR SET_REPEAT needs OFF, ALL, or ONE\n"@)),
        Some(repeat) => {
            let modes = PlaybackModes { repeat, ..d.modes };
            (
                DaemonView { modes, ..d },
                acted(
                    "OK repeat "@ + repeat_key(repeat) + "\n"@,
                    ActView::SaveModes(modes_text(modes)),
                ),
            )
        },
    }
}

/// What `QUEUE_PAGE` is answered.
pub open spec fn page_text(d: DaemonView, arg: Seq<char>) -> Seq<char> {
    match page_request(arg) {
        Some((offset, limit)) => queue_page_reply(d.queue, offset, limit),
        None => "ERR QUEUE_PAGE needs offset and limit 1-9\n"@,
    }
}

/// What `NOW_PLAYING` is answered.
pub open spec fn now_playing_text(item: Option<NowPlayingView>) -> Seq<char> {
    match item {
        Some(item) => "NOW_PLAYING "@ + item.id + "\t"@ + item.title + "\t"@ + item.artist + "\t"@
            + decimal(item.duration_ms as nat) + "\n"@,
        None => "NOW_PLAYING NONE\n"@,
    }
}

/// What `POSITION` is answered.
pub open spec fn position_text(position: Option<u32>) -> Seq<char> {
    match position {
        Some(ms) => "POSITION "@ + decimal(ms as nat) + "\n"@,
        None => "POSITION NONE\n"@,
    }
}

/// `SEEK`: never past the end of the track.
pub open spec fn seek(d: DaemonView, arg: Seq<char>) -> ReplyView {
    match number(arg, u32::MAX as nat) {
        None => told("ERR SEEK needs milliseconds\n"@),
        Some(asked) => match d.now_playing {
            None => told("ERR no track loaded\n"@),
            Some(item) => {
                let target = if asked < item.duration_ms {
                    asked as u32
                } else {
                    item.duration_ms
                };
                acted("OK seek "@ + decimal(target as nat) + "\n"@, ActView::Seek(target))
            },
        },
    }
}

/// The context of a search: its words with a plus sign between them.
pub open spec fn search_uri(query: Seq<char>) -> Seq<char> {
    "spotify:search:"@ + joined(words(query), "+"@)
}

/// The volume after a change, and its percentage as the answer.
pub open spec fn volume_set(level: u16) -> ReplyView {
    acted("OK vol "@ + decimal(percent(level as int) as nat) + "\n"@, ActView::SetVolume(level))
}

/// `SETVOL`.
pub open spec fn volume_asked(arg: Seq<char>) -> ReplyView {
    match number(arg, u32::MAX as nat) {
        Some(pct) => if pct <= 100 {
            acted(
                "OK vol "@ + decimal(pct) + "\n"@,
                ActView::SetVolume(level_of(pct as int) as u16),
            )
        } else {
            told("ERR SETVOL needs 0-100\n"@)
        },
        None => told("ERR SETVOL needs 0-100\n"@),
    }
}

/// What a command does: the state behind it, and what is to be done about it. `cmd` is
/// the command in capitals, `mode` the argument in capitals, `volume` the volume now.
pub open spec fn obeyed(
    d: DaemonView,
    cmd: Seq<char>,
    arg: Seq<char>,
    mode: Seq<char>,
    volume: u16,
) -> (DaemonView, OutcomeView) {
    if cmd == "LOAD"@ {
        let (next, reply) = load(d, arg);
        (next, OutcomeView::Answer(reply))
    } else if cmd == "LOAD_LIKED"@ {
        enqueued(
            d,
            track_request(SourceView::Liked, arg),
            "ERR LOAD_LIKED needs request_id and track_id\n"@,
        )
    } else if cmd == "LOAD_PLAYLIST"@ {
        enqueued(
            d,
            playlist_request(arg),
            "ERR LOAD_PLAYLIST needs request_id, playlist_id, and track_id\n"@,
        )
    } else if cmd == "LOAD_SEARCH"@ {
        enqueued(
            d,
            track_request(SourceView::Search, arg),
            "ERR LOAD_SEARCH needs request_id and track_id\n"@,
        )
    } else if cmd == "PLAY"@ {
        (d, OutcomeView::Answer(acted("OK play\n"@, ActView::Play)))
    } else if cmd == "PAUSE"@ {
        (d, OutcomeView::Answer(acted("OK pause\n"@, ActView::Pause)))
    } else if cmd == "STOP"@ {
        (
            DaemonView { queue: idle(), ..d },
            OutcomeView::Answer(acted("OK stop\n"@, ActView::Stop)),
        )
    } else if cmd == "NEXT"@ || cmd == "PREVIOUS"@ {
        let (next, reply) = stepped(d, cmd == "NEXT"@);
        (next, OutcomeView::Answer(reply))
    } else if cmd == "PLAYBACK_MODES"@ {
        (d, OutcomeView::Answer(told(modes_reply(d.modes))))
    } else if cmd == "SET_SHUFFLE"@ {
        let (next, reply) = shuffle_set(d, mode);
        (next, OutcomeView::Answer(reply))
    } else if cmd == "SET_REPEAT"@ {
        let (next, reply) = repeat_set(d, mode);
        (next, OutcomeView::Answer(reply))
    } else if cmd == "STATUS"@ {
        (d, OutcomeView::Answer(told("STATUS "@ + state_label(d.state) + "\n"@)))
    } else if cmd == "QUEUE_STATUS"@ {
        (d, OutcomeView::Answer(told(queue_status_reply(d.queue))))
    } else if cmd == "QUEUE_PAGE"@ {
        (d, OutcomeView::Answer(told(page_text(d, arg))))
    } else if cmd == "NOW_PLAYING"@ {
        (d, OutcomeView::Answer(told(now_playing_text(d.now_playing))))
    } else if cmd == "POSITION"@ {
        (d, OutcomeView::Answer(told(position_text(d.position))))
    } else if cmd == "SEEK"@ {
        (d, OutcomeView::Answer(seek(d, arg)))
    } else if cmd == "SEARCH"@ {
        if arg.len() == 0 {
            (d, OutcomeView::Answer(told("ERR empty query\n"@)))
        } else {
            (d, OutcomeView::List(ListingView::Search(search_uri(arg))))
        }
    } else if cmd == "LIKED"@ {
        (d, OutcomeView::List(ListingView::Liked))
    } else if cmd == "PLAYLIST"@ {
        (d, OutcomeView::List(ListingView::Playlist(arg)))
    } else if cmd == "PLAYLISTS"@ {
        (d, OutcomeView::Profile)
    } else if cmd == "VOL_UP"@ {
        (
            d,
            OutcomeView::Answer(
                volume_set(
                    if volume + STEP < FULL {
                        (volume + STEP) as u16
                    } else {
                        FULL
                    },
                ),
            ),
        )
    } else if cmd == "VOL_DOWN"@ {
        (
            d,
            OutcomeView::Answer(
                volume_set(
                    if volume > STEP {
                        (volume - STEP) as u16
                    } else {
                        0
                    },
                ),
            ),
        )
    } else if cmd == "SETVOL"@ {
        (d, OutcomeView::Answer(volume_asked(arg)))
    } else if cmd == "GETVOL"@ {
        (
            d,
            OutcomeView::Answer(
                told("VOL "@ + decimal(percent(volume as int) as nat) + "\n"@),
            ),
        )
    } else if cmd == "QUIT"@ {
        (d, OutcomeView::Answer(acted("OK bye\n"@, ActView::Quit)))
    } else {
        (d, OutcomeView::Answer(told("ERR unknown command '"@ + cmd + "'\n"@)))
    }
}

fn answer(text: String, act: Act) -> (r: Outcome)
    ensures
        r@ == OutcomeView::Answer(acted(text@, act@)),
{
    Outcome::Answer(Reply { text, act })
}

/// A text between two others.
fn between(head: &str, text: &str, tail: &str) -> (r: String)
    ensures
        r@ == head@ + text@ + tail@,
{
    let mut r = head.to_owned();
    r.append(text);
    r.append(tail);
    r
}

/// A number between two texts.
fn counted(head: &str, n: u64, tail: &str) -> (r: String)
    ensures
        r@ == head@ + decimal(n as nat) + tail@,
{
    let mut r = head.to_owned();
    append_number(&mut r, n);
    r.append(tail);
    r
}

/// Reads the argument of `LOAD_LIKED` or `LOAD_SEARCH`.
fn parse_track_request(source: QueueSource, arg: &str) -> (r: Option<LoadRequest>)
    ensures
        view_opt(r) == track_request(source@, arg@),
{
    let args = split_words(arg);
    assert(args@.len() == words(arg@).len());
    if args.len() != 2 {
        return None;
    }
    assert(args@[0]@ == words(arg@)[0]);
    assert(args@[1]@ == words(arg@)[1]);
    match parse_u64(args[0]) {
        Some(request_id) => Some(LoadRequest { source, request_id, track_id: args[1].to_owned() }),
        None => None,
    }
}

/// Reads the argument of `LOAD_PLAYLIST`.
fn parse_playlist_request(arg: &str) -> (r: Option<LoadRequest>)
    ensures
        view_opt(r) == playlist_request(arg@),
{
    let args = split_words(arg);
    assert(args@.len() == words(arg@).len());
    if args.len() != 3 {
        return None;
    }
    assert(args@[0]@ == words(arg@)[0]);
    assert(args@[1]@ == words(arg@)[1]);
    assert(args@[2]@ == words(arg@)[2]);
    match parse_u64(args[0]) {
        Some(request_id) => Some(
            LoadRequest {
                source: QueueSource::Playlist(args[1].to_owned()),
                request_id,
                track_id: args[2].to_owned(),
            },
        ),
        None => None,
    }
}

impl Daemon {
    fn load(&mut self, arg: &str) -> (r: Reply)
        requires
            old(self)@.wf(),
        ensures
            (final(self)@, r@) == load(old(self)@, arg@),
            final(self)@.wf(),
    {
        match id_from_base62(arg) {
            Ok(id) => {
                self.queue = PlaybackQueue::default();
                Reply { text: between("OK loading ", arg, "\n"), act: Act::Load(id) }
            },
            Err(error) => bad_track(arg, error.as_str()),
        }
    }

    fn enqueue(&mut self, request: Option<LoadRequest>, usage: &str) -> (r: Outcome)
        requires
            old(self)@.wf(),
        ensures
            (final(self)@, r@) == enqueued(old(self)@, view_opt(request), usage@),
            final(self)@.wf(),
    {
        match request {
            None => answer(usage.to_owned(), Act::Nothing),
            Some(request) => {
                if self.register_load_request(request.request_id) {
                    Outcome::Queue(request)
                } else {
                    Outcome::Answer(request.stale())
                }
            },
        }
    }

    fn step(&mut self, forward: bool) -> (r: Reply)
        requires
            old(self)@.wf(),
        ensures
            (final(self)@, r@) == stepped(old(self)@, forward),
            final(self)@.wf(),
    {
        match self.queue.target(forward, self.modes.repeat) {
            None => tell("OK queue boundary\n".to_owned()),
            Some(position) => {
                let track = self.queue.track_at(position);
                match id_from_base62(track.as_str()) {
                    Ok(id) => {
                        let index: usize = self.queue.play_order[position];
                        self.queue.move_to(position);
                        let mut text = "OK loading ".to_owned();
                        text.append(if forward { "next" } else { "previous" });
                        text.append(" ");
                        append_number(&mut text, index as u64);
                        text.append(" ");
                        text.append(track.as_str());
                        text.append("\n");
                        Reply { text, act: Act::Load(id) }
                    },
                    Err(error) => {
                        let mut text = between("ERR bad queued track id '", track.as_str(), "': ");
                        text.append(error.as_str());
                        text.append("\n");
                        tell(text)
                    },
                }
            },
        }
    }

    fn set_shuffle(&mut self, word: &str) -> (r: Reply)
        requires
            old(self)@.wf(),
        ensures
            (final(self)@, r@) == shuffle_set(old(self)@, word@),
            final(self)@.wf(),
    {
        let on = same(word, "ON");
        if !on && !same(word, "OFF") {
            return tell("ERR SET_SHUFFLE needs ON or OFF\n".to_owned());
        }
        self.modes.shuffle = on;
        proof {
            if self.queue.current_index is Some {
                play_order_keeps_random(
                    self.queue@.track_ids.len(),
                    self.queue.current_index->0,
                    on,
                    self.modes.shuffle_seed,
                );
            }
        }
        self.queue.reorder(&mut self.modes);
        Reply {
            text: between("OK shuffle ", on_off_key(on), "\n"),
            act: Act::SaveModes(save_playback_modes(&self.modes)),
        }
    }

    fn set_repeat(&mut self, word: &str) -> (r: Reply)
        requires
            old(self)@.wf(),
        ensures
            (final(self)@, r@) == repeat_set(old(self)@, word@),
            final(self)@.wf(),
    {
        let repeat = if same(word, "OFF") {
            RepeatMode::Off
        } else if same(word, "ALL") {
            RepeatMode::All
        } else if same(word, "ONE") {
            RepeatMode::One
        } else {
            return tell("ERR SET_REPEAT needs OFF, ALL, or ONE\n".to_owned());
        };
        self.modes.repeat = repeat;
        Reply {
            text: between("OK repeat ", repeat.key(), "\n"),
            act: Act::SaveModes(save_playback_modes(&self.modes)),
        }
    }

    fn page_text(&self, arg: &str) -> (r: String)
        requires
            self@.wf(),
        ensures
            r@ == page_text(self@, arg@),
    {
        match parse_page_request(arg) {
            Some((offset, limit)) => self.queue.page(offset, limit),
            None => "ERR QUEUE_PAGE needs offset and limit 1-9\n".to_owned(),
        }
    }

    fn now_playing_text(&self) -> (r: String)
        ensures
            r@ == now_playing_text(self@.now_playing),
    {
        match &self.now_playing {
            Some(item) => {
                let mut text = between("NOW_PLAYING ", item.id.as_str(), "\t");
                text.append(item.title.as_str());
                text.append("\t");
                text.append(item.artist.as_str());
                text.append("\t");
                append_number(&mut text, item.duration_ms as u64);
                text.append("\n");
                text
            },
            None => "NOW_PLAYING NONE\n".to_owned(),
        }
    }

    fn position_text(&self) -> (r: String)
        ensures
            r@ == position_text(self@.position),
    {
        match self.position {
            Some(ms) => counted("POSITION ", ms as u64, "\n"),
            None => "POSITION NONE\n".to_owned(),
        }
    }

    fn seek(&self, arg: &str) -> (r: Reply)
        ensures
            r@ == seek(self@, arg@),
    {
        match parse_u32(arg) {
            None => tell("ERR SEEK needs milliseconds\n".to_owned()),
            Some(asked) => match &self.now_playing {
                None => tell("ERR no track loaded\n".to_owned()),
                Some(item) => {
                    let target: u32 = if asked < item.duration_ms { asked } else { item.duration_ms };
                    Reply { text: counted("OK seek ", target as u64, "\n"), act: Act::Seek(target) }
                },
            },
        }
    }

    /// Obeys a command: `cmd` is the command in capitals, `mode` the argument in capitals,
    /// `volume` the volume now.
    pub fn obey(&mut self, cmd: &str, arg: &str, mode: &str, volume: u16) -> (r: Outcome)
        requires
            old(self)@.wf(),
        ensures
            (final(self)@, r@) == obeyed(old(self)@, cmd@, arg@, mode@, volume),
            final(self)@.wf(),
    {
        if same(cmd, "LOAD") {
            Outcome::Answer(self.load(arg))
        } else if same(cmd, "LOAD_LIKED") {
            let request = parse_track_request(QueueSource::Liked, arg);
            self.enqueue(request, "ERR LOAD_LIKED needs request_id and track_id\n")
        } else if same(cmd, "LOAD_PLAYLIST") {
            let request = parse_playlist_request(arg);
            self.enqueue(
                request,
                "ERR LOAD_PLAYLIST needs request_id, playlist_id, and track_id\n",
            )
        } else if same(cmd, "LOAD_SEARCH") {
            let request = parse_track_request(QueueSource::Search, arg);
            self.enqueue(request, "ERR LOAD_SEARCH needs request_id and track_id\n")
        } else if same(cmd, "PLAY") {
            answer("OK play\n".to_owned(), Act::Play)
        } else if same(cmd, "PAUSE") {
            answer("OK pause\n".to_owned(), Act::Pause)
        } else if same(cmd, "STOP") {
            self.queue = PlaybackQueue::default();
            answer("OK stop\n".to_owned(), Act::Stop)
        } else if same(cmd, "NEXT") {
            Outcome::Answer(self.step(true))
        } else if same(cmd, "PREVIOUS") {
            Outcome::Answer(self.step(false))
        } else if same(cmd, "PLAYBACK_MODES") {
            answer(report_modes(&self.modes), Act::Nothing)
        } else if same(cmd, "SET_SHUFFLE") {
            Outcome::Answer(self.set_shuffle(mode))
        } else if same(cmd, "SET_REPEAT") {
            Outcome::Answer(self.set_repeat(mode))
        } else if same(cmd, "STATUS") {
            answer(between("STATUS ", self.state.label(), "\n"), Act::Nothing)
        } else if same(cmd, "QUEUE_STATUS") {
            answer(self.queue.status(), Act::Nothing)
        } else if same(cmd, "QUEUE_PAGE") {
            answer(self.page_text(arg), Act::Nothing)
        } else if same(cmd, "NOW_PLAYING") {
            answer(self.now_playing_text(), Act::Nothing)
        } else if same(cmd, "POSITION") {
            answer(self.position_text(), Act::Nothing)
        } else if same(cmd, "SEEK") {
            Outcome::Answer(self.seek(arg))
        } else if same(cmd, "SEARCH") {
            if arg.is_empty() {
                answer("ERR empty query\n".to_owned(), Act::Nothing)
            } else {
                let query = split_words(arg);
                let mut uri = "spotify:search:".to_owned();
                let joined_query = join(&query, "+");
                uri.append(joined_query.as_str());
                Outcome::List(Listing::Search(uri))
            }
        } else if same(cmd, "LIKED") {
            Outcome::List(Listing::Liked)
        } else if same(cmd, "PLAYLIST") {
            Outcome::List(Listing::Playlist(arg.to_owned()))
        } else if same(cmd, "PLAYLISTS") {
            Outcome::Profile
        } else if same(cmd, "VOL_UP") {
            let level: u16 = louder(volume);
            answer(counted("OK vol ", vol_percent(level) as u64, "\n"), Act::SetVolume(level))
        } else if same(cmd, "VOL_DOWN") {
            let level: u16 = quieter(volume);
            answer(counted("OK vol ", vol_percent(level) as u64, "\n"), Act::SetVolume(level))
        } else if same(cmd, "SETVOL") {
            match parse_u32(arg) {
                Some(pct) if pct <= 100 => {
                    let level: u16 = vol_level(pct);
                    answer(counted("OK vol ", pct as u64, "\n"), Act::SetVolume(level))
                },
                _ => answer("ERR SETVOL needs 0-100\n".to_owned(), Act::Nothing),
            }
        } else if same(cmd, "GETVOL") {
            answer(counted("VOL ", vol_percent(volume) as u64, "\n"), Act::Nothing)
        } else if same(cmd, "QUIT") {
            answer("OK bye\n".to_owned(), Act::Quit)
        } else {
            answer(between("ERR unknown command '", cmd, "'\n"), Act::Nothing)
        }
    }

    /// Obeys a line of the protocol; a blank line is passed over.
    pub fn command(&mut self, line: &str, volume: u16) -> (r: Option<Outcome>)
        requires
            old(self)@.wf(),
        ensures
            match command_parts(line@) {
                None => r is None && final(self)@ == old(self)@,
                Some((word, arg)) => {
                    &&& r is Some
                    &&& (final(self)@, r->0@) == obeyed(
                        old(self)@,
                        uppercase(word),
                        arg,
                        uppercase(arg),
                        volume,
                    )
                    &&& is_ascii(word) ==> uppercase(word) == capitals(word)
                    &&& is_ascii(arg) ==> uppercase(arg) == capitals(arg)
                },
            },
            final(self)@.wf(),
    {
        match split_command(line) {
            None => None,
            Some((word, arg)) => {
                let cmd = to_uppercase(word);
                let mode = to_uppercase(arg);
                Some(self.obey(cmd.as_str(), arg, mode.as_str(), volume))
            },
        }
    }
}

/// `PREVIOUS` takes back a `NEXT` that loaded a track, and the other way round.
pub proof fn previous_takes_back_next(d: DaemonView, forward: bool)
    requires
        d.wf(),
        stepped(d, forward).1.act is Load,
        base62_id(d.queue.current()->0) is Some,
    ensures
        stepped(stepped(d, forward).0, !forward).0 == d,
        stepped(stepped(d, forward).0, !forward).1.act == ActView::Load(
            base62_id(d.queue.current()->0)->0,
        ),
{
    steps_undo_each_other(d.queue, forward, d.modes.repeat);
}

/// Changing the shuffle mode leaves the tracks, the current one and the player alone.
/// Without shuffle the turns are those of the list.
pub proof fn shuffle_keeps_the_current_track(d: DaemonView, word: Seq<char>)
    requires
        d.wf(),
    ensures
        shuffle_set(d, word).0.queue.current() == d.queue.current(),
        shuffle_set(d, word).0.queue.track_ids == d.queue.track_ids,
        shuffle_set(d, word).1.act is SaveModes || shuffle_set(d, word).1.act is Nothing,
        word == "OFF"@ && d.queue.current_index is Some ==> shuffle_set(d, word).0.queue.order_position
            == d.queue.current_index,
{
    if word == "OFF"@ && d.queue.current_index is Some {
        let index = d.queue.current_index->0;
        reveal_strlit("ON");
        reveal_strlit("OFF");
        assert("ON"@.len() == 2 && "OFF"@.len() == 3);
        assert(d.queue.play_order[d.queue.order_position->0 as int] == index);
        let order = play_order(d.queue.track_ids.len(), index, false, d.modes.shuffle_seed).0;
        lemma_place_is(order, index, index as int);
    }
}

/// A seek stays within the track that plays.
pub proof fn seek_stays_in_the_track(d: DaemonView, arg: Seq<char>)
    ensures
        match seek(d, arg).act {
            ActView::Seek(ms) => d.now_playing is Some && ms <= d.now_playing->0.duration_ms,
            act => act is Nothing,
        },
{
}

/// The commands that only report change nothing and leave the player alone.
pub proof fn reports_change_nothing(
    d: DaemonView,
    cmd: Seq<char>,
    arg: Seq<char>,
    mode: Seq<char>,
    volume: u16,
)
    requires
        cmd == "STATUS"@ || cmd == "QUEUE_STATUS"@ || cmd == "QUEUE_PAGE"@ || cmd == "PLAYBACK_MODES"@
            || cmd == "NOW_PLAYING"@ || cmd == "POSITION"@ || cmd == "GETVOL"@,
    ensures
        obeyed(d, cmd, arg, mode, volume).0 == d,
        obeyed(d, cmd, arg, mode, volume).1 is Answer,
        obeyed(d, cmd, arg, mode, volume).1->Answer_0.act is Nothing,
{
    reveal_strlit("STATUS");
    reveal_strlit("QUEUE_STATUS");
    reveal_strlit("QUEUE_PAGE");
    reveal_strlit("PLAYBACK_MODES");
    reveal_strlit("NOW_PLAYING");
    reveal_strlit("POSITION");
    reveal_strlit("GETVOL");
    reveal_strlit("LOAD");
    reveal_strlit("LOAD_LIKED");
    reveal_strlit("LOAD_PLAYLIST");
    reveal_strlit("LOAD_SEARCH");
    reveal_strlit("PLAY");
    reveal_strlit("PAUSE");
    reveal_strlit("STOP");
    reveal_strlit("NEXT");
    reveal_strlit("PREVIOUS");
    reveal_strlit("SET_SHUFFLE");
    reveal_strlit("SET_REPEAT");
    reveal_strlit("SEEK");
    reveal_strlit("SEARCH");
    reveal_strlit("LIKED");
    reveal_strlit("PLAYLIST");
    reveal_strlit("PLAYLISTS");
    reveal_strlit("VOL_UP");
    reveal_strlit("VOL_DOWN");
    reveal_strlit("SETVOL");
    assert("LOAD"@.len() == 4 && "LOAD_LIKED"@.len() == 10 && "LOAD_PLAYLIST"@.len() == 13);
    assert("LOAD_SEARCH"@.len() == 11 && "PLAY"@.len() == 4 && "PAUSE"@.len() == 5);
    assert("STOP"@.len() == 4 && "NEXT"@.len() == 4 && "PREVIOUS"@.len() == 8);
    assert("SET_SHUFFLE"@.len() == 11 && "SET_REPEAT"@.len() == 10 && "SEEK"@.len() == 4);
    assert("SEARCH"@.len() == 6 && "LIKED"@.len() == 5 && "PLAYLIST"@.len() == 8);
    assert("PLAYLISTS"@.len() == 9 && "VOL_UP"@.len() == 6 && "VOL_DOWN"@.len() == 8);
    assert("SETVOL"@.len() == 6 && "STATUS"@.len() == 6 && "QUEUE_STATUS"@.len() == 12);
    assert("QUEUE_PAGE"@.len() == 10 && "PLAYBACK_MODES"@.len() == 14);
    assert("NOW_PLAYING"@.len() == 11 && "POSITION"@.len() == 8 && "GETVOL"@.len() == 6);
    assert("QUEUE_PAGE"@[0] == 'Q' && "LOAD_LIKED"@[0] == 'L' && "SET_REPEAT"@[0] == 'S');
    assert("NOW_PLAYING"@[0] == 'N' && "LOAD_SEARCH"@[0] == 'L' && "SET_SHUFFLE"@[0] == 'S');
    assert("POSITION"@[1] == 'O' && "PREVIOUS"@[1] == 'R');
    assert("GETVOL"@[0] == 'G' && "STATUS"@[0] == 'S' && "SEARCH"@[0] == 'S');
    assert("VOL_UP"@[0] == 'V' && "SETVOL"@[0] == 'S');
}

/// The modes that a command sets are the ones that the modes file gives back.
pub proof fn set_modes_last(d: DaemonView, word: Seq<char>)
    ensures
        shuffle_set(d, word).1.act matches ActView::SaveModes(text) ==> {
            &&& modes_of(lines(text)).shuffle == shuffle_set(d, word).0.modes.shuffle
            &&& modes_of(lines(text)).repeat == shuffle_set(d, word).0.modes.repeat
        },
        repeat_set(d, word).1.act matches ActView::SaveModes(text) ==> {
            &&& modes_of(lines(text)).shuffle == repeat_set(d, word).0.modes.shuffle
            &&& modes_of(lines(text)).repeat == repeat_set(d, word).0.modes.repeat
        },
{
    saved_modes_load_again(shuffle_set(d, word).0.modes);
    saved_modes_load_again(repeat_set(d, word).0.modes);
}

} // verus!
