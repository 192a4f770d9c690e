//! What follows from the daemon's answers, and from the keys of the device.
use crate::text::{append_number, decimal, lines, starts_with, view_opt};
use crate::ui::replies::{
    all_listed_in, daemon_playback_modes, daemon_playlist_query, daemon_query, daemon_queue_page,
    daemon_queue_status, modes_in, parse_volume_reply, queue_page_in, queue_status_in, status_in,
    view_known, volume_in, PageView, PlaybackState, QueuePage, QueueStatus, ShownModes, StatusView,
    VISIBLE_ROWS,
};
use crate::ui::state::{
    list_or_notice, or_notice, AppView, Device, Nav, Playback, Times, Ui, UiView, VolumePopup,
};
use crate::ui::system::{le_i32, le_i32_of, le_i32_reads_back, le_u16, le_u16_of, le_u16_reads_back};
use crate::ui::touch::{dirtied, page_offset, touched, viewing, Effect, EffectView};
use vstd::prelude::*;
use vstd::slice::slice_subrange;
use vstd::string::*;

verus! {

/// The page in an answer that came.
pub open spec fn page_of_answer(reply: Option<Seq<char>>) -> Option<Option<PageView>> {
    match reply {
        Some(reply) => queue_page_in(reply),
        None => None,
    }
}

/// The place in the queue in an answer that came.
pub open spec fn status_of_answer(reply: Option<Seq<char>>) -> Option<Option<StatusView>> {
    match reply {
        Some(reply) => queue_status_in(reply),
        None => None,
    }
}

/// The modes in an answer that came.
pub open spec fn modes_of_answer(reply: Option<Seq<char>>) -> Option<ShownModes> {
    match reply {
        Some(reply) => modes_in(reply),
        None => None,
    }
}

/// The state in an answer that came.
pub open spec fn state_of_answer(reply: Option<Seq<char>>) -> Option<PlaybackState> {
    match reply {
        Some(reply) => status_in(reply),
        None => None,
    }
}

/// An answer that makes no sense counts as none.
pub open spec fn flat<A>(known: Option<Option<A>>) -> Option<A> {
    match known {
        Some(inner) => inner,
        None => None,
    }
}

pub fn read_page(reply: Option<&str>) -> (r: Option<Option<QueuePage>>)
    ensures
        view_known(r) == page_of_answer(view_opt(reply)),
        r matches Some(Some(page)) ==> page@.wf(),
{
    match reply {
        Some(reply) => daemon_queue_page(reply),
        None => None,
    }
}

pub fn read_queue_status(reply: Option<&str>) -> (r: Option<Option<QueueStatus>>)
    ensures
        view_known(r) == status_of_answer(view_opt(reply)),
{
    match reply {
        Some(reply) => daemon_queue_status(reply),
        None => None,
    }
}

pub fn read_modes(reply: Option<&str>) -> (r: Option<ShownModes>)
    ensures
        r == modes_of_answer(view_opt(reply)),
{
    match reply {
        Some(reply) => daemon_playback_modes(reply),
        None => None,
    }
}

pub fn read_state(reply: Option<&str>) -> (r: Option<PlaybackState>)
    ensures
        r == state_of_answer(view_opt(reply)),
{
    match reply {
        Some(reply) => PlaybackState::from_status_reply(reply),
        None => None,
    }
}

/// The page that was asked for is shown, if the answer makes sense.
pub open spec fn page_answered(u: UiView, reply: Option<Seq<char>>) -> UiView {
    match page_of_answer(reply) {
        Some(page) => dirtied(UiView { page, ..u }),
        None => u,
    }
}

/// Whether the daemon loads another track.
pub open spec fn is_loading(reply: Option<Seq<char>>) -> bool {
    reply matches Some(text) && "OK loading "@.is_prefix_of(text)
}

/// Another track loads, or the queue has come to its end.
pub open spec fn step_answered(u: UiView, reply: Option<Seq<char>>) -> UiView {
    if is_loading(reply) {
        dirtied(
            UiView {
                play: Playback { state: PlaybackState::Loading, position: Some(0), ..u.play },
                ..u
            },
        )
    } else {
        u
    }
}

/// The play order opens at the page with the current track.
pub open spec fn opening_offset(first: Option<PageView>) -> int {
    match first {
        Some(page) => page_offset(page.current_position as int),
        None => 0,
    }
}

/// The play order is shown.
pub open spec fn up_next_opened(u: UiView, page: Option<PageView>) -> UiView {
    viewing(UiView { page, ..u }, AppView::UpNext)
}

/// The first page of the play order has come. If the current track is on another one,
/// that page is to be asked for; otherwise this one is shown.
pub open spec fn first_page_answered(u: UiView, reply: Option<Seq<char>>) -> (UiView, Option<usize>) {
    let first = flat(page_of_answer(reply));
    let offset = opening_offset(first) as usize;
    let u = UiView { nav: Nav { up_next_offset: offset, ..u.nav }, ..u };
    if offset > 0 {
        (u, Some(offset))
    } else {
        (up_next_opened(u, first), None)
    }
}

/// The playlists have come.
pub open spec fn playlists_answered(u: UiView, text: Seq<char>) -> UiView {
    viewing(
        UiView {
            playlists: or_notice(all_listed_in(lines(text), "PLAYLIST "@), "No playlists found"@),
            nav: Nav { playlist_scroll: 0, playlist_selected: None, ..u.nav },
            ..u
        },
        AppView::Playlists,
    )
}

/// The tracks of a playlist have come.
pub open spec fn playlist_answered(u: UiView, text: Seq<char>) -> UiView {
    viewing(
        UiView {
            playlist_tracks: or_notice(all_listed_in(lines(text), "RESULT "@), "No tracks found"@),
            nav: Nav { playlist_track_scroll: 0, playlist_track_selected: None, ..u.nav },
            ..u
        },
        AppView::PlaylistTracks,
    )
}

/// The modes have come with which the sound menu opens.
pub open spec fn sound_answered(u: UiView, reply: Option<Seq<char>>) -> UiView {
    let modes = match modes_of_answer(reply) {
        Some(modes) => modes,
        None => u.play.modes,
    };
    viewing(UiView { play: Playback { modes, ..u.play }, ..u }, AppView::Sound)
}

/// Whether the daemon has changed a mode.
pub open spec fn is_accepted(reply: Option<Seq<char>>) -> bool {
    reply matches Some(text) && "OK "@.is_prefix_of(text)
}

/// The modes have come after a change.
pub open spec fn modes_answered(u: UiView, reply: Option<Seq<char>>) -> UiView {
    match modes_of_answer(reply) {
        Some(modes) => dirtied(UiView { play: Playback { modes, ..u.play }, ..u }),
        None => u,
    }
}

/// The place in the queue has come with which the diagnostics open.
pub open spec fn diagnostics_answered(u: UiView, reply: Option<Seq<char>>) -> UiView {
    viewing(UiView { queue_status: flat(status_of_answer(reply)), ..u }, AppView::Diagnostics)
}

/// The state and the place in the queue have come anew.
pub open spec fn refresh_answered(
    u: UiView,
    status: Option<Seq<char>>,
    queue: Option<Seq<char>>,
    now: u64,
) -> UiView {
    let state = match state_of_answer(status) {
        Some(state) => state,
        None => u.play.state,
    };
    dirtied(
        UiView {
            play: Playback { state, ..u.play },
            queue_status: flat(status_of_answer(queue)),
            times: Times { diagnostics: Some(now), ..u.times },
            ..u
        },
    )
}

/// The volume has come after a change.
pub open spec fn volume_answered(u: UiView, reply: Option<Seq<char>>, now: u64) -> UiView {
    match reply {
        Some(reply) => match volume_in(reply) {
            Some(percent) => UiView {
                play: Playback {
                    volume_popup: Some(VolumePopup { percent, shown: now }),
                    ..u.play
                },
                device: Device { strip_dirty: true, ..u.device },
                ..u
            },
            None => u,
        },
        None => u,
    }
}

impl Ui {
    /// The page that was asked for has come, or not.
    pub fn answer_page(&mut self, reply: Option<&str>)
        requires
            old(self)@.wf(),
        ensures
            final(self)@ == page_answered(old(self)@, view_opt(reply)),
            final(self)@.wf(),
    {
        match read_page(reply) {
            Some(page) => {
                self.page = page;
                self.device.dirty = true;
            },
            None => {},
        }
    }

    /// The daemon has answered `NEXT` or `PREVIOUS`, or not.
    pub fn answer_step(&mut self, reply: Option<&str>)
        requires
            old(self)@.wf(),
        ensures
            final(self)@ == step_answered(old(self)@, view_opt(reply)),
            final(self)@.wf(),
    {
        let loading = match reply {
            Some(text) => starts_with(text, "OK loading "),
            None => false,
        };
        if loading {
            self.play.state = PlaybackState::Loading;
            self.play.position = Some(0);
            self.device.dirty = true;
        }
    }

    /// The first page of the play order has come, or not. Returns the offset of the page
    /// to ask for instead.
    pub fn answer_first_page(&mut self, reply: Option<&str>) -> (r: Option<usize>)
        requires
            old(self)@.wf(),
        ensures
            (final(self)@, r) == first_page_answered(old(self)@, view_opt(reply)),
            final(self)@.wf(),
    {
        let first = match read_page(reply) {
            Some(first) => first,
            None => None,
        };
        let offset: usize = match &first {
            Some(page) => page.current_position / VISIBLE_ROWS * VISIBLE_ROWS,
            None => 0,
        };
        self.nav.up_next_offset = offset;
        if offset > 0 {
            Some(offset)
        } else {
            self.page = first;
            self.nav.view = AppView::UpNext;
            self.device.dirty = true;
            None
        }
    }

    /// The page with the current track has come, or not.
    pub fn answer_opening_page(&mut self, reply: Option<&str>)
        requires
            old(self)@.wf(),
        ensures
            final(self)@ == up_next_opened(old(self)@, flat(page_of_answer(view_opt(reply)))),
            final(self)@.wf(),
    {
        self.page = match read_page(reply) {
            Some(page) => page,
            None => None,
        };
        self.nav.view = AppView::UpNext;
        self.device.dirty = true;
    }

    /// The playlists have come; `text` is empty if they have not.
    pub fn answer_playlists(&mut self, text: &str)
        requires
            old(self)@.wf(),
        ensures
            final(self)@ == playlists_answered(old(self)@, text@),
            final(self)@.wf(),
    {
        self.playlists = list_or_notice(daemon_playlist_query(text), "No playlists found");
        self.nav.playlist_scroll = 0;
        self.nav.playlist_selected = None;
        self.nav.view = AppView::Playlists;
        self.device.dirty = true;
    }

    /// The tracks of a playlist have come; `text` is empty if they have not.
    pub fn answer_playlist(&mut self, text: &str)
        requires
            old(self)@.wf(),
        ensures
            final(self)@ == playlist_answered(old(self)@, text@),
            final(self)@.wf(),
    {
        self.playlist_tracks = list_or_notice(daemon_query(text), "No tracks found");
        self.nav.playlist_track_scroll = 0;
        self.nav.playlist_track_selected = None;
        self.nav.view = AppView::PlaylistTracks;
        self.device.dirty = true;
    }

    /// The modes have come with which the sound menu opens, or not.
    pub fn answer_sound(&mut self, reply: Option<&str>)
        requires
            old(self)@.wf(),
        ensures
            final(self)@ == sound_answered(old(self)@, view_opt(reply)),
            final(self)@.wf(),
    {
        match read_modes(reply) {
            Some(modes) => {
                self.play.modes = modes;
            },
            None => {},
        }
        self.nav.view = AppView::Sound;
        self.device.dirty = true;
    }

    /// The modes have come after a change, or not.
    pub fn answer_modes(&mut self, reply: Option<&str>)
        requires
            old(self)@.wf(),
        ensures
            final(self)@ == modes_answered(old(self)@, view_opt(reply)),
            final(self)@.wf(),
    {
        match read_modes(reply) {
            Some(modes) => {
                self.play.modes = modes;
                self.device.dirty = true;
            },
            None => {},
        }
    }

    /// The place in the queue has come with which the diagnostics open, or not.
    pub fn answer_diagnostics(&mut self, reply: Option<&str>)
        requires
            old(self)@.wf(),
        ensures
            final(self)@ == diagnostics_answered(old(self)@, view_opt(reply)),
            final(self)@.wf(),
    {
        self.queue_status = match read_queue_status(reply) {
            Some(status) => status,
            None => None,
        };
        self.nav.view = AppView::Diagnostics;
        self.device.dirty = true;
    }

    /// The state and the place in the queue have come anew, or not.
    pub fn answer_refresh(&mut self, status: Option<&str>, queue: Option<&str>, now: u64)
        requires
            old(self)@.wf(),
        ensures
            final(self)@ == refresh_answered(old(self)@, view_opt(status), view_opt(queue), now),
            final(self)@.wf(),
    {
        match read_state(status) {
            Some(state) => {
                self.play.state = state;
            },
            None => {},
        }
        self.queue_status = match read_queue_status(queue) {
            Some(status) => status,
            None => None,
        };
        self.times.diagnostics = Some(now);
        self.device.dirty = true;
    }

    /// The volume has come after a change, or not.
    pub fn answer_volume(&mut self, reply: Option<&str>, now: u64)
        requires
            old(self)@.wf(),
        ensures
            final(self)@ == volume_answered(old(self)@, view_opt(reply), now),
            final(self)@.wf(),
    {
        match reply {
            Some(reply) => match parse_volume_reply(reply) {
                Some(percent) => {
                    self.play.volume_popup = Some(VolumePopup { percent, shown: now });
                    self.device.strip_dirty = true;
                },
                None => {},
            },
            None => {},
        }
    }
}

/// Whether the daemon has changed a mode.
pub fn mode_accepted(reply: Option<&str>) -> (r: bool)
    ensures
        r == is_accepted(view_opt(reply)),
{
    match reply {
        Some(text) => starts_with(text, "OK "),
        None => false,
    }
}

/// How many bytes an input event has.
pub const EVENT_SIZE: usize = 16;

/// An input event: its kind, its code and its value.
pub struct InputEvent {
    pub kind: u16,
    pub code: u16,
    pub value: i32,
}

/// The event that 16 bytes hold, behind a time of 8 bytes.
pub open spec fn event_in(bytes: Seq<u8>) -> InputEvent {
    InputEvent {
        kind: le_u16_of(bytes.subrange(8, 10)) as u16,
        code: le_u16_of(bytes.subrange(10, 12)) as u16,
        value: le_i32_of(bytes.subrange(12, 16)) as i32,
    }
}

/// Reads an input event.
pub fn read_event(bytes: &[u8]) -> (r: InputEvent)
    requires
        bytes@.len() == EVENT_SIZE,
    ensures
        r == event_in(bytes@),
{
    InputEvent {
        kind: le_u16(slice_subrange(bytes, 8, 10)),
        code: le_u16(slice_subrange(bytes, 10, 12)),
        value: le_i32(slice_subrange(bytes, 12, 16)),
    }
}

/// What an event of the touch screen does: it moves the finger, puts it down or lifts
/// it, or reports that it is there.
pub open spec fn screen_event(u: UiView, e: InputEvent, now: u64) -> (UiView, EffectView) {
    if e.kind == 3 && e.code == 0x35 {
        (UiView { device: Device { x: e.value, ..u.device }, ..u }, EffectView::Nothing)
    } else if e.kind == 3 && e.code == 0x36 {
        (UiView { device: Device { y: e.value, ..u.device }, ..u }, EffectView::Nothing)
    } else if e.kind == 1 && e.code == 0x14a {
        (
            UiView { device: Device { touching: e.value == 1, ..u.device }, ..u },
            EffectView::Nothing,
        )
    } else if e.kind == 0 && e.code == 0 && u.device.touching {
        touched(u, now)
    } else {
        (u, EffectView::Nothing)
    }
}

/// The power key wakes a sleeping screen and does nothing else.
pub open spec fn power_event(u: UiView, e: InputEvent, now: u64) -> (UiView, bool) {
    if e.kind == 1 && e.code == 116 && e.value == 1 && u.device.asleep {
        (
            UiView {
                device: Device { asleep: false, ..u.device },
                times: Times { input: now, flush: now, ..u.times },
                ..u
            },
            true,
        )
    } else {
        (u, false)
    }
}

/// A volume key: whether it is louder, if it is one.
pub open spec fn volume_event(u: UiView, e: InputEvent, now: u64) -> (UiView, Option<bool>) {
    if e.kind == 1 && e.value == 1 {
        (
            UiView { times: Times { input: now, ..u.times }, ..u },
            if e.code == 0x73 {
                Some(true)
            } else if e.code == 0x72 {
                Some(false)
            } else {
                None
            },
        )
    } else {
        (u, None)
    }
}

impl Ui {
    /// An event of the touch screen.
    pub fn on_screen_event(&mut self, e: &InputEvent, now: u64) -> (r: Effect)
        requires
            old(self)@.wf(),
        ensures
            (final(self)@, r@) == screen_event(old(self)@, *e, now),
            final(self)@.wf(),
    {
        if e.kind == 3 && e.code == 0x35 {
            self.device.x = e.value;
        } else if e.kind == 3 && e.code == 0x36 {
            self.device.y = e.value;
        } else if e.kind == 1 && e.code == 0x14a {
            self.device.touching = e.value == 1;
        } else if e.kind == 0 && e.code == 0 && self.device.touching {
            return self.touch(now);
        }
        Effect::Nothing
    }

    /// An event of the power key. Returns whether the screen is to be woken.
    pub fn on_power_event(&mut self, e: &InputEvent, now: u64) -> (r: bool)
        requires
            old(self)@.wf(),
        ensures
            (final(self)@, r) == power_event(old(self)@, *e, now),
            final(self)@.wf(),
    {
        if e.kind == 1 && e.code == 116 && e.value == 1 && self.device.asleep {
            self.device.asleep = false;
            self.times.input = now;
            self.times.flush = now;
            true
        } else {
            false
        }
    }

    /// An event of the volume keys. Returns whether to ask for more volume or less.
    pub fn on_volume_event(&mut self, e: &InputEvent, now: u64) -> (r: Option<bool>)
        requires
            old(self)@.wf(),
        ensures
            (final(self)@, r) == volume_event(old(self)@, *e, now),
            final(self)@.wf(),
    {
        if e.kind == 1 && e.value == 1 {
            self.times.input = now;
            if e.code == 0x73 {
                return Some(true);
            } else if e.code == 0x72 {
                return Some(false);
            }
        }
        None
    }
}

/// The command that asks for a page of the play order.
pub open spec fn page_command(offset: usize) -> Seq<char> {
    "QUEUE_PAGE "@ + decimal(offset as nat) + " 9"@
}

/// The command that asks for a page of the play order.
pub fn write_page_command(offset: usize) -> (r: String)
    ensures
        r@ == page_command(offset),
{
    let mut command = "QUEUE_PAGE ".to_owned();
    append_number(&mut command, offset as u64);
    command.append(" 9");
    command
}

/// The command that searches.
pub fn write_search_command(query: &str) -> (r: String)
    ensures
        r@ == "SEARCH "@ + query@,
{
    let mut command = "SEARCH ".to_owned();
    command.append(query);
    command
}

/// The command that asks for the tracks of a playlist.
pub fn write_playlist_command(id: &str) -> (r: String)
    ensures
        r@ == "PLAYLIST "@ + id@,
{
    let mut command = "PLAYLIST ".to_owned();
    command.append(id);
    command
}

/// The command that asks for the next track, or the one before.
pub fn step_command(forward: bool) -> (r: &'static str)
    ensures
        r@ == if forward {
            "NEXT"@
        } else {
            "PREVIOUS"@
        },
{
    if forward {
        "NEXT"
    } else {
        "PREVIOUS"
    }
}

/// The command that asks for more volume, or less.
pub fn volume_command(louder: bool) -> (r: &'static str)
    ensures
        r@ == if louder {
            "VOL_UP"@
        } else {
            "VOL_DOWN"@
        },
{
    if louder {
        "VOL_UP"
    } else {
        "VOL_DOWN"
    }
}

/// An event reads as what it was made of, whatever its time: its kind, its code and its
/// value, each with the low byte first.
pub proof fn event_reads_back(time: Seq<u8>, kind: u16, code: u16, value: i32)
    requires
        time.len() == 8,
    ensures
        ({
            let m: int = if value < 0 {
                value + 0x1_0000_0000
            } else {
                value as int
            };
            event_in(
                time + seq![
                    (kind % 256) as u8,
                    (kind / 256) as u8,
                    (code % 256) as u8,
                    (code / 256) as u8,
                    (m % 256) as u8,
                    (m / 256 % 256) as u8,
                    (m / 65536 % 256) as u8,
                    (m / 16777216) as u8,
                ],
            ) == (InputEvent { kind, code, value })
        }),
{
    le_u16_reads_back(kind);
    le_u16_reads_back(code);
    le_i32_reads_back(value);
}

/// A mode was changed if the answer says so; an error or no answer at all does not.
pub proof fn only_an_answer_accepts(rest: Seq<char>)
    ensures
        is_accepted(Some("OK "@ + rest)),
        !is_accepted(Some("ERR "@ + rest)),
        !is_accepted(None),
        is_loading(Some("OK loading "@ + rest)),
        !is_loading(Some("OK queue boundary"@)),
        !is_loading(Some("ERR "@ + rest)),
        !is_loading(None),
{
    reveal_strlit("OK ");
    reveal_strlit("OK loading ");
    reveal_strlit("OK queue boundary");
    reveal_strlit("ERR ");
    assert(("OK "@ + rest).subrange(0, 3) =~= "OK "@);
    assert(("OK loading "@ + rest).subrange(0, 11) =~= "OK loading "@);
    assert(("ERR "@ + rest)[0] == 'E');
    assert("OK "@[0] == 'O');
    assert("OK loading "@[3] == 'l');
    assert("OK queue boundary"@[3] == 'q');
    if is_loading(Some("OK queue boundary"@)) {
        assert("OK queue boundary"@.subrange(0, 11)[3] == 'l');
    }
    if is_accepted(Some("ERR "@ + rest)) {
        assert(("ERR "@ + rest).subrange(0, 3)[0] == 'O');
    }
    if is_loading(Some("ERR "@ + rest)) {
        assert(("ERR "@ + rest).subrange(0, 11)[0] == 'O');
    }
}

} // verus!
