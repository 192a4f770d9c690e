//! Shuffle and repeat, and the file that keeps them.
use crate::text::{lemma_first_line, lines, same, split_lines, views};
use vstd::prelude::*;
use vstd::string::*;

verus! {

/// The state in which the shuffle generator starts.
pub const FIRST_SEED: u64 = 0x5f37_59df_c2b1_4a6d;

#[derive(Clone, Copy, Debug, PartialEq, Eq, Structural)]
pub enum RepeatMode {
    Off,
    All,
    One,
}

/// A repeat mode as it stands in the modes file and in replies.
pub open spec fn repeat_key(repeat: RepeatMode) -> Seq<char> {
    match repeat {
        RepeatMode::Off => "off"@,
        RepeatMode::All => "all"@,
        RepeatMode::One => "one"@,
    }
}

/// A repeat mode in capitals.
pub open spec fn repeat_label(repeat: RepeatMode) -> Seq<char> {
    match repeat {
        RepeatMode::Off => "OFF"@,
        RepeatMode::All => "ALL"@,
        RepeatMode::One => "ONE"@,
    }
}

pub open spec fn on_off(on: bool) -> Seq<char> {
    if on {
        "on"@
    } else {
        "off"@
    }
}

pub open spec fn on_off_label(on: bool) -> Seq<char> {
    if on {
        "ON"@
    } else {
        "OFF"@
    }
}

impl RepeatMode {
    pub fn key(self) -> (r: &'static str)
        ensures
            r@ == repeat_key(self),
    {
        match self {
            RepeatMode::Off => "off",
            RepeatMode::All => "all",
            RepeatMode::One => "one",
        }
    }

    pub fn label(self) -> (r: &'static str)
        ensures
            r@ == repeat_label(self),
    {
        match self {
            RepeatMode::Off => "OFF",
            RepeatMode::All => "ALL",
            RepeatMode::One => "ONE",
        }
    }
}

pub fn on_off_key(on: bool) -> (r: &'static str)
    ensures
        r@ == on_off(on),
{
    if on {
        "on"
    } else {
        "off"
    }
}

/// How the queue is played on.
#[derive(Clone, Copy, Debug, PartialEq, Eq, Structural)]
pub struct PlaybackModes {
    pub shuffle: bool,
    pub repeat: RepeatMode,
    pub shuffle_seed: u64,
}

/// The modes that the lines of a modes file set. A mode that no line sets is off;
/// `repeat=all` goes before `repeat=one`.
pub open spec fn modes_of(file: Seq<Seq<char>>) -> PlaybackModes {
    PlaybackModes {
        shuffle: file.contains("shuffle=on"@),
        repeat: if file.contains("repeat=all"@) {
            RepeatMode::All
        } else if file.contains("repeat=one"@) {
            RepeatMode::One
        } else {
            RepeatMode::Off
        },
        shuffle_seed: FIRST_SEED,
    }
}

/// What the modes file holds for given modes.
pub open spec fn modes_text(modes: PlaybackModes) -> Seq<char> {
    "shuffle="@ + on_off(modes.shuffle) + "\nrepeat="@ + repeat_key(modes.repeat) + "\n"@
}

/// What `PLAYBACK_MODES` is answered.
pub open spec fn modes_reply(modes: PlaybackModes) -> Seq<char> {
    "MODES SHUFFLE "@ + on_off_label(modes.shuffle) + " REPEAT "@ + repeat_label(modes.repeat) + "\n"@
}

fn has_line(file: &Vec<&str>, line: &str) -> (r: bool)
    ensures
        r == views(file@).contains(line@),
{
    let ghost texts = views(file@);
    let mut i: usize = 0;
    while i < file.len()
        invariant
            i <= file.len(),
            texts == views(file@),
            forall|k: int| 0 <= k < i ==> #[trigger] texts[k] != line@,
        decreases file.len() - i,
    {
        if same(file[i], line) {
            assert(texts[i as int] == line@);
            return true;
        }
        i += 1;
    }
    false
}

/// Reads a modes file. A file that is missing reads as an empty one.
pub fn load_playback_modes(contents: &str) -> (r: PlaybackModes)
    ensures
        r == modes_of(lines(contents@)),
{
    let file = split_lines(contents);
    let shuffle = has_line(&file, "shuffle=on");
    let repeat = if has_line(&file, "repeat=all") {
        RepeatMode::All
    } else if has_line(&file, "repeat=one") {
        RepeatMode::One
    } else {
        RepeatMode::Off
    };
    PlaybackModes { shuffle, repeat, shuffle_seed: FIRST_SEED }
}

/// The text to keep in the modes file.
pub fn save_playback_modes(modes: &PlaybackModes) -> (r: String)
    ensures
        r@ == modes_text(*modes),
{
    let mut text = "shuffle=".to_owned();
    text.append(on_off_key(modes.shuffle));
    text.append("\nrepeat=");
    text.append(modes.repeat.key());
    text.append("\n");
    text
}

/// The answer to `PLAYBACK_MODES`.
pub fn report_modes(modes: &PlaybackModes) -> (r: String)
    ensures
        r@ == modes_reply(*modes),
{
    let mut text = "MODES SHUFFLE ".to_owned();
    text.append(if modes.shuffle { "ON" } else { "OFF" });
    text.append(" REPEAT ");
    text.append(modes.repeat.label());
    text.append("\n");
    text
}

/// Reading back what was saved gives the same modes.
pub proof fn saved_modes_load_again(modes: PlaybackModes)
    ensures
        modes_of(lines(modes_text(modes))).shuffle == modes.shuffle,
        modes_of(lines(modes_text(modes))).repeat == modes.repeat,
{
    reveal_strlit("shuffle=");
    reveal_strlit("\nrepeat=");
    reveal_strlit("\n");
    reveal_strlit("on");
    reveal_strlit("off");
    reveal_strlit("all");
    reveal_strlit("one");
    reveal_strlit("shuffle=on");
    reveal_strlit("repeat=all");
    reveal_strlit("repeat=one");
    let first = "shuffle="@ + on_off(modes.shuffle);
    let repeat_eq = seq!['r', 'e', 'p', 'e', 'a', 't', '='];
    let second = repeat_eq + repeat_key(modes.repeat);
    let text = modes_text(modes);
    assert(text =~= first + seq!['\n'] + (second + seq!['\n'] + seq![]));
    lemma_first_line(first, second + seq!['\n'] + seq![]);
    lemma_first_line(second, seq![]);
    let file = lines(text);
    assert(file =~= seq![first, second]);
    assert(file[0] == first && file[1] == second);
    if modes.shuffle {
        assert(first =~= "shuffle=on"@);
    } else {
        assert(first[9] == 'f');
    }
    assert(second[0] == 'r');
    assert(first[0] == 's');
    match modes.repeat {
        RepeatMode::All => {
            assert(second =~= "repeat=all"@);
        },
        RepeatMode::One => {
            assert(second =~= "repeat=one"@);
            assert(second[7] == 'o');
        },
        RepeatMode::Off => {
            assert(second[8] == 'f');
        },
    }
}

} // verus!
