//! Short texts on the screen.
use crate::text::{append_number, chars, decimal, digit};
use crate::ui::replies::{Listed, ListedView};
use vstd::prelude::*;
use vstd::string::*;

verus! {

/// A track with its artist, or a playlist with its owner, on one line.
pub open spec fn label_of(item: ListedView) -> Seq<char> {
    if item.by.len() == 0 {
        item.name
    } else {
        item.name + " - "@ + item.by
    }
}

impl Listed {
    /// Display label for the list row.
    pub fn label(&self) -> (r: String)
        ensures
            r@ == label_of(self@),
    {
        if self.by.as_str().is_empty() {
            self.name.clone()
        } else {
            let mut r = self.name.clone();
            r.append(" - ");
            r.append(self.by.as_str());
            r
        }
    }
}

/// A text cut to at most `max` characters, with dots where something is missing.
pub open spec fn shortened(s: Seq<char>, max: nat) -> Seq<char> {
    if s.len() <= max {
        s
    } else if max <= 3 {
        seq!['.', '.', '.'].take(max as int)
    } else {
        s.take(max - 3) + seq!['.', '.', '.']
    }
}

/// Cuts a text to at most `max_chars` characters.
pub fn truncate_label(s: &str, max_chars: usize) -> (r: String)
    ensures
        r@ == shortened(s@, max_chars as nat),
        r@.len() <= max_chars,
{
    let v = chars(s);
    if v.len() <= max_chars {
        return s.to_owned();
    }
    if max_chars <= 3 {
        let mut r = String::new();
        let mut i: usize = 0;
        while i < max_chars
            invariant
                i <= max_chars <= 3,
                r@ =~= seq!['.', '.', '.'].take(i as int),
            decreases max_chars - i,
        {
            r.push('.');
            i += 1;
        }
        return r;
    }
    let mut r = s.substring_char(0, max_chars - 3).to_owned();
    r.append("...");
    proof {
        reveal_strlit("...");
        assert("..."@ =~= seq!['.', '.', '.']);
    }
    r
}

/// A time in minutes and two digits of seconds.
pub open spec fn clock_text(ms: nat) -> Seq<char> {
    let seconds = ms / 1000;
    decimal(seconds / 60) + seq![':', digit(((seconds % 60) / 10) as int), digit(
        ((seconds % 60) % 10) as int,
    )]
}

/// A time in minutes and two digits of seconds.
pub fn format_playback_time(milliseconds: u32) -> (r: String)
    ensures
        r@ == clock_text(milliseconds as nat),
{
    let seconds: u32 = milliseconds / 1000;
    let mut r = String::new();
    append_number(&mut r, (seconds / 60) as u64);
    r.push(':');
    let tens: u8 = ((seconds % 60) / 10) as u8;
    let ones: u8 = ((seconds % 60) % 10) as u8;
    r.push((tens + 48) as char);
    r.push((ones + 48) as char);
    assert(r@ =~= clock_text(milliseconds as nat));
    r
}

/// What is waited for while the device starts.
#[derive(Clone, Copy, Debug, PartialEq, Eq, Structural)]
pub enum StartupStage {
    Wifi,
    Spotify,
    Library,
}

pub open spec fn stage_label(stage: StartupStage) -> Seq<char> {
    match stage {
        StartupStage::Wifi => "Starting Wi-Fi"@,
        StartupStage::Spotify => "Connecting to Spotify"@,
        StartupStage::Library => "Loading Liked Songs"@,
    }
}

pub open spec fn stage_detail(stage: StartupStage) -> Seq<char> {
    match stage {
        StartupStage::Wifi => "Preparing the network connection"@,
        StartupStage::Spotify => "Signing in and starting playback"@,
        StartupStage::Library => "Fetching your saved tracks"@,
    }
}

pub open spec fn stage_retry(stage: StartupStage) -> Seq<char> {
    match stage {
        StartupStage::Wifi => "Retry Wi-Fi"@,
        StartupStage::Spotify => "Retry Spotify"@,
        StartupStage::Library => "Retry Library"@,
    }
}

pub open spec fn stage_width(stage: StartupStage) -> u32 {
    match stage {
        StartupStage::Wifi => 120,
        StartupStage::Spotify => 240,
        StartupStage::Library => 360,
    }
}

impl StartupStage {
    pub fn label(self) -> (r: &'static str)
        ensures
            r@ == stage_label(self),
    {
        match self {
            StartupStage::Wifi => "Starting Wi-Fi",
            StartupStage::Spotify => "Connecting to Spotify",
            StartupStage::Library => "Loading Liked Songs",
        }
    }

    pub fn detail(self) -> (r: &'static str)
        ensures
            r@ == stage_detail(self),
    {
        match self {
            StartupStage::Wifi => "Preparing the network connection",
            StartupStage::Spotify => "Signing in and starting playback",
            StartupStage::Library => "Fetching your saved tracks",
        }
    }

    pub fn progress_width(self) -> (r: u32)
        ensures
            r == stage_width(self),
    {
        match self {
            StartupStage::Wifi => 120,
            StartupStage::Spotify => 240,
            StartupStage::Library => 360,
        }
    }

    pub fn retry_label(self) -> (r: &'static str)
        ensures
            r@ == stage_retry(self),
    {
        match self {
            StartupStage::Wifi => "Retry Wi-Fi",
            StartupStage::Spotify => "Retry Spotify",
            StartupStage::Library => "Retry Library",
        }
    }
}

/// A text that is cut is no longer than it may be, starts as the whole text does, and ends
/// in dots; one that fits is left as it is.
pub proof fn shortened_text_is_a_start(s: Seq<char>, max: nat, i: int)
    requires
        max > 3,
    ensures
        shortened(s, max).len() <= max,
        s.len() <= max ==> shortened(s, max) == s,
        s.len() > max ==> shortened(s, max).len() == max,
        s.len() > max && 0 <= i < max - 3 ==> shortened(s, max)[i] == s[i],
        s.len() > max && max - 3 <= i < max ==> shortened(s, max)[i] == '.',
{
}

/// A time tells the whole seconds: minutes, a colon, and two digits below sixty.
pub proof fn clock_tells_the_seconds(ms: nat)
    ensures
        ({
            let text = clock_text(ms);
            let n = text.len() - 3;
            let minutes = text.take(n);
            &&& n > 0
            &&& text[n] == ':'
            &&& crate::text::is_digit(text[n + 1])
            &&& crate::text::is_digit(text[n + 2])
            &&& crate::text::all_digits(minutes)
            &&& crate::text::digits_value(text.skip(n + 1)) < 60
            &&& crate::text::digits_value(minutes) * 60 + crate::text::digits_value(text.skip(n + 1))
                == ms / 1000
        }),
{
    let seconds = ms / 1000;
    let text = clock_text(ms);
    let head = decimal(seconds / 60);
    let n = text.len() - 3;
    crate::text::lemma_decimal(seconds / 60);
    assert(text.take(n) =~= head);
    let tail = text.skip(n + 1);
    let tens = digit(((seconds % 60) / 10) as int);
    let ones = digit(((seconds % 60) % 10) as int);
    assert(tail =~= seq![tens, ones]);
    assert(tail.drop_last() =~= seq![tens]);
    assert(seq![tens].drop_last() =~= Seq::<char>::empty());
    assert(crate::text::digits_value(Seq::<char>::empty()) == 0);
    assert(crate::text::digits_value(seq![tens]) == (seconds % 60) / 10);
    assert(crate::text::digits_value(tail) == seconds % 60);
}

/// A label starts with the name and ends with who it is by.
pub proof fn label_holds_both_names(item: ListedView)
    ensures
        item.name.is_prefix_of(label_of(item)),
        item.by.len() == 0 ==> label_of(item) == item.name,
        item.by.len() > 0 ==> label_of(item).skip(item.name.len() as int + 3) == item.by,
{
    reveal_strlit(" - ");
    assert(label_of(item).subrange(0, item.name.len() as int) =~= item.name);
    if item.by.len() > 0 {
        assert(label_of(item).skip(item.name.len() as int + 3) =~= item.by);
    }
}

} // verus!
