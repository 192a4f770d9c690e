//! Settings that outlive the interface: brightness, screen sleep, theme, search history.
use crate::text::{
    capital, chars, decimal, join, joined, lemma_trimmed_is, lines, number, parse_usize, same,
    split_lines, to_decimal, trim, trimmed, view_opt, views,
};
use vstd::prelude::*;
use vstd::string::*;

verus! {

/// The brightness levels that can be chosen, in percent.
pub const BRIGHTNESS_LEVELS: [u32; 5] = [100, 80, 60, 40, 25];

/// How many choices there are for the brightness and for the screen sleep.
pub const CHOICES: usize = 5;

/// How many searches are remembered.
pub const SEARCH_HISTORY_LIMIT: usize = 8;

/// The choice that a state file holds. A file that is missing, unreadable or out of
/// range counts as the first choice for one setting and the second for the other.
pub open spec fn choice_in(contents: Option<Seq<char>>, otherwise: usize) -> usize {
    match contents {
        Some(text) => match number(trimmed(text), usize::MAX as nat) {
            Some(n) => if n < CHOICES {
                n as usize
            } else {
                otherwise
            },
            None => otherwise,
        },
        None => otherwise,
    }
}

fn load_choice(contents: Option<&str>, otherwise: usize) -> (r: usize)
    ensures
        r == choice_in(view_opt(contents), otherwise),
{
    match contents {
        Some(text) => match parse_usize(trim(text)) {
            Some(n) => {
                if n < CHOICES {
                    n
                } else {
                    otherwise
                }
            },
            None => otherwise,
        },
        None => otherwise,
    }
}

/// The brightness that was kept, the brightest if none was.
pub fn load_brightness_idx(contents: Option<&str>) -> (r: usize)
    ensures
        r == choice_in(view_opt(contents), 0),
        r < CHOICES,
{
    load_choice(contents, 0)
}

/// The screen sleep that was kept, the second choice if none was.
pub fn load_screen_sleep_idx(contents: Option<&str>) -> (r: usize)
    ensures
        r == choice_in(view_opt(contents), 1),
        r < CHOICES,
{
    load_choice(contents, 1)
}

/// The text that keeps a choice.
pub fn save_choice(index: usize) -> (r: String)
    ensures
        r@ == decimal(index as nat),
{
    to_decimal(index as u64)
}

/// The brightness of a choice, in percent.
pub open spec fn brightness_of(index: int) -> u32 {
    BRIGHTNESS_LEVELS[index]
}

/// The level to set for a choice.
pub fn brightness_level(index: usize) -> (r: u32)
    requires
        index < CHOICES,
    ensures
        r == brightness_of(index as int),
{
    BRIGHTNESS_LEVELS[index]
}

pub open spec fn brightness_text(index: int) -> Seq<char> {
    if index == 0 {
        "100%"@
    } else if index == 1 {
        "80%"@
    } else if index == 2 {
        "60%"@
    } else if index == 3 {
        "40%"@
    } else {
        "25%"@
    }
}

/// A brightness choice as it is shown.
pub fn brightness_label(index: usize) -> (r: &'static str)
    requires
        index < CHOICES,
    ensures
        r@ == brightness_text(index as int),
{
    if index == 0 {
        "100%"
    } else if index == 1 {
        "80%"
    } else if index == 2 {
        "60%"
    } else if index == 3 {
        "40%"
    } else {
        "25%"
    }
}

/// After how many milliseconds without a touch the screen goes to sleep; never for the
/// last choice.
pub open spec fn sleep_after(index: int) -> Option<u64> {
    if index == 0 {
        Some(30_000)
    } else if index == 1 {
        Some(60_000)
    } else if index == 2 {
        Some(120_000)
    } else if index == 3 {
        Some(300_000)
    } else {
        None
    }
}

/// The screen sleep of a choice.
pub fn screen_sleep_timeout(index: usize) -> (r: Option<u64>)
    requires
        index < CHOICES,
    ensures
        r == sleep_after(index as int),
{
    if index == 0 {
        Some(30_000)
    } else if index == 1 {
        Some(60_000)
    } else if index == 2 {
        Some(120_000)
    } else if index == 3 {
        Some(300_000)
    } else {
        None
    }
}

/// A choice that is kept is the one that is loaded.
pub proof fn kept_choice_loads_again(index: usize, otherwise: usize)
    requires
        index < CHOICES,
    ensures
        choice_in(Some(decimal(index as nat)), otherwise) == index,
{
    crate::text::lemma_decimal(index as nat);
    lemma_trimmed_is(decimal(index as nat));
    crate::text::decimal_reads_back(index as nat, usize::MAX as nat);
}

/// The colour themes.
#[derive(Clone, Copy, Debug, PartialEq, Eq, Structural)]
pub enum Theme {
    ElKayKay,
    Tidepool,
    CitrusGrove,
    MonochromeStatic,
    PaperLantern,
    DurandalTerminal,
    ArcadeBloom,
    DesertBloom,
    AlNoor,
    NightMarket,
}

/// The stable name under which a theme is kept.
pub open spec fn theme_key(theme: Theme) -> Seq<char> {
    match theme {
        Theme::ElKayKay => "el-kay-kay"@,
        Theme::Tidepool => "tidepool"@,
        Theme::CitrusGrove => "citrus-grove"@,
        Theme::MonochromeStatic => "monochrome-static"@,
        Theme::PaperLantern => "paper-lantern"@,
        Theme::DurandalTerminal => "durandal-terminal"@,
        Theme::ArcadeBloom => "arcade-bloom"@,
        Theme::DesertBloom => "desert-bloom"@,
        Theme::AlNoor => "al-noor"@,
        Theme::NightMarket => "night-market"@,
    }
}

/// The theme of a name, present or former.
pub open spec fn theme_named(key: Seq<char>) -> Option<Theme> {
    if key == "el-kay-kay"@ || key == "forest"@ {
        Some(Theme::ElKayKay)
    } else if key == "tidepool"@ || key == "ocean"@ {
        Some(Theme::Tidepool)
    } else if key == "citrus-grove"@ || key == "violet"@ {
        Some(Theme::CitrusGrove)
    } else if key == "monochrome-static"@ || key == "bauhaus"@ || key == "amber"@ {
        Some(Theme::MonochromeStatic)
    } else if key == "paper-lantern"@ || key == "monochrome"@ {
        Some(Theme::PaperLantern)
    } else if key == "durandal-terminal"@ {
        Some(Theme::DurandalTerminal)
    } else if key == "arcade-bloom"@ || key == "synthwave"@ {
        Some(Theme::ArcadeBloom)
    } else if key == "desert-bloom"@ || key == "sunset"@ {
        Some(Theme::DesertBloom)
    } else if key == "al-noor"@ || key == "ice"@ {
        Some(Theme::AlNoor)
    } else if key == "night-market"@ || key == "crimson"@ {
        Some(Theme::NightMarket)
    } else {
        None
    }
}

impl Theme {
    /// The stable name under which the theme is kept.
    pub fn key(self) -> (r: &'static str)
        ensures
            r@ == theme_key(self),
    {
        match self {
            Theme::ElKayKay => "el-kay-kay",
            Theme::Tidepool => "tidepool",
            Theme::CitrusGrove => "citrus-grove",
            Theme::MonochromeStatic => "monochrome-static",
            Theme::PaperLantern => "paper-lantern",
            Theme::DurandalTerminal => "durandal-terminal",
            Theme::ArcadeBloom => "arcade-bloom",
            Theme::DesertBloom => "desert-bloom",
            Theme::AlNoor => "al-noor",
            Theme::NightMarket => "night-market",
        }
    }

    /// The theme of a name, present or former.
    pub fn from_key(key: &str) -> (r: Option<Theme>)
        ensures
            r == theme_named(key@),
    {
        if same(key, "el-kay-kay") || same(key, "forest") {
            Some(Theme::ElKayKay)
        } else if same(key, "tidepool") || same(key, "ocean") {
            Some(Theme::Tidepool)
        } else if same(key, "citrus-grove") || same(key, "violet") {
            Some(Theme::CitrusGrove)
        } else if same(key, "monochrome-static") || same(key, "bauhaus") || same(key, "amber") {
            Some(Theme::MonochromeStatic)
        } else if same(key, "paper-lantern") || same(key, "monochrome") {
            Some(Theme::PaperLantern)
        } else if same(key, "durandal-terminal") {
            Some(Theme::DurandalTerminal)
        } else if same(key, "arcade-bloom") || same(key, "synthwave") {
            Some(Theme::ArcadeBloom)
        } else if same(key, "desert-bloom") || same(key, "sunset") {
            Some(Theme::DesertBloom)
        } else if same(key, "al-noor") || same(key, "ice") {
            Some(Theme::AlNoor)
        } else if same(key, "night-market") || same(key, "crimson") {
            Some(Theme::NightMarket)
        } else {
            None
        }
    }
}

/// The theme that a state file holds, the first one if it holds none.
pub open spec fn theme_in(contents: Option<Seq<char>>) -> Theme {
    match contents {
        Some(text) => match theme_named(trimmed(text)) {
            Some(theme) => theme,
            None => Theme::ElKayKay,
        },
        None => Theme::ElKayKay,
    }
}

/// The theme that was kept.
pub fn load_theme(contents: Option<&str>) -> (r: Theme)
    ensures
        r == theme_in(view_opt(contents)),
{
    match contents {
        Some(text) => match Theme::from_key(trim(text)) {
            Some(theme) => theme,
            None => Theme::ElKayKay,
        },
        None => Theme::ElKayKay,
    }
}

/// A theme that is kept is the one that is loaded.
pub proof fn kept_theme_loads_again(theme: Theme)
    ensures
        theme_named(theme_key(theme)) == Some(theme),
        theme_in(Some(theme_key(theme))) == theme,
{
    reveal_strlit("el-kay-kay");
    reveal_strlit("forest");
    reveal_strlit("tidepool");
    reveal_strlit("ocean");
    reveal_strlit("citrus-grove");
    reveal_strlit("violet");
    reveal_strlit("monochrome-static");
    reveal_strlit("bauhaus");
    reveal_strlit("amber");
    reveal_strlit("paper-lantern");
    reveal_strlit("monochrome");
    reveal_strlit("durandal-terminal");
    reveal_strlit("arcade-bloom");
    reveal_strlit("synthwave");
    reveal_strlit("desert-bloom");
    reveal_strlit("sunset");
    reveal_strlit("al-noor");
    reveal_strlit("ice");
    reveal_strlit("night-market");
    reveal_strlit("crimson");
    let key = theme_key(theme);
    lemma_trimmed_is(key);
    assert("el-kay-kay"@.len() == 10 && "forest"@.len() == 6 && "tidepool"@.len() == 8);
    assert("ocean"@.len() == 5 && "citrus-grove"@.len() == 12 && "violet"@.len() == 6);
    assert("monochrome-static"@.len() == 17 && "bauhaus"@.len() == 7 && "amber"@.len() == 5);
    assert("paper-lantern"@.len() == 13 && "monochrome"@.len() == 10);
    assert("durandal-terminal"@.len() == 17 && "arcade-bloom"@.len() == 12);
    assert("synthwave"@.len() == 9 && "desert-bloom"@.len() == 12 && "sunset"@.len() == 6);
    assert("al-noor"@.len() == 7 && "ice"@.len() == 3 && "night-market"@.len() == 12);
    assert("citrus-grove"@[0] == 'c' && "arcade-bloom"@[0] == 'a' && "desert-bloom"@[0] == 'd');
    assert("night-market"@[0] == 'n' && "monochrome-static"@[0] == 'm');
    assert("durandal-terminal"@[0] == 'd' && "al-noor"@[0] == 'a' && "bauhaus"@[0] == 'b');
}

/// Whether two texts are equal but for the case of the letters A-Z.
pub open spec fn same_search(a: Seq<char>, b: Seq<char>) -> bool {
    a.len() == b.len() && forall|i: int|
        0 <= i < a.len() ==> capital(#[trigger] a[i]) == capital(b[i])
}

/// The searches but for those that equal `query`.
pub open spec fn without_search(history: Seq<Seq<char>>, query: Seq<char>) -> Seq<Seq<char>>
    decreases history.len(),
{
    if history.len() == 0 {
        seq![]
    } else {
        let rest = without_search(history.drop_last(), query);
        if same_search(history.last(), query) {
            rest
        } else {
            rest.push(history.last())
        }
    }
}

/// The first searches, as many as are remembered.
pub open spec fn recent(history: Seq<Seq<char>>) -> Seq<Seq<char>> {
    if history.len() <= SEARCH_HISTORY_LIMIT {
        history
    } else {
        history.take(SEARCH_HISTORY_LIMIT as int)
    }
}

/// The history behind a search: the search comes first, and stands there once. A blank
/// search is not remembered.
pub open spec fn searched(history: Seq<Seq<char>>, query: Seq<char>) -> Seq<Seq<char>> {
    if trimmed(query).len() == 0 {
        history
    } else {
        recent(seq![trimmed(query)] + without_search(history, trimmed(query)))
    }
}

/// What the state file holds for a history: a search on each line.
pub open spec fn history_text(history: Seq<Seq<char>>) -> Seq<char> {
    joined(recent(history), "\n"@)
}

/// The lines that are not blank, trimmed.
pub open spec fn searches_in(file: Seq<Seq<char>>) -> Seq<Seq<char>>
    decreases file.len(),
{
    if file.len() == 0 {
        seq![]
    } else {
        let rest = searches_in(file.drop_last());
        if trimmed(file.last()).len() == 0 {
            rest
        } else {
            rest.push(trimmed(file.last()))
        }
    }
}

fn capital_of(c: char) -> (r: char)
    ensures
        r == capital(c),
{
    if 'a' <= c && c <= 'z' {
        let n: u8 = c as u8;
        (n - 32) as char
    } else {
        c
    }
}

fn is_same_search(a: &str, b: &str) -> (r: bool)
    ensures
        r == same_search(a@, b@),
{
    let v = chars(a);
    let w = chars(b);
    if v.len() != w.len() {
        return false;
    }
    let mut i: usize = 0;
    while i < v.len()
        invariant
            i <= v.len() == w.len(),
            v@ == a@,
            w@ == b@,
            forall|k: int| 0 <= k < i ==> capital(#[trigger] a@[k]) == capital(b@[k]),
        decreases v.len() - i,
    {
        if capital_of(v[i]) != capital_of(w[i]) {
            assert(capital(a@[i as int]) != capital(b@[i as int]));
            return false;
        }
        i += 1;
    }
    true
}

/// Puts a search in front of the history.
pub fn remember_search(history: &mut Vec<String>, query: &str)
    ensures
        views(final(history)@) == searched(views(old(history)@), query@),
{
    let query = trim(query);
    if query.is_empty() {
        return;
    }
    let ghost before = views(history@);
    let mut kept: Vec<String> = Vec::new();
    kept.push(query.to_owned());
    let mut i: usize = 0;
    assert(views(kept@) =~= seq![query@] + without_search(before.take(0), query@));
    while i < history.len()
        invariant
            i <= history.len(),
            before == views(history@),
            views(kept@) =~= seq![query@] + without_search(before.take(i as int), query@),
        decreases history.len() - i,
    {
        assert(before.take(i as int + 1).drop_last() =~= before.take(i as int));
        assert(before.take(i as int + 1).last() == history@[i as int]@);
        if !is_same_search(history[i].as_str(), query) {
            let ghost old_kept = kept@;
            kept.push(history[i].clone());
            assert(views(kept@) =~= views(old_kept).push(history@[i as int]@));
        }
        i += 1;
    }
    assert(before.take(i as int) =~= before);
    let ghost all = views(kept@);
    kept.truncate(SEARCH_HISTORY_LIMIT);
    assert(views(kept@) =~= recent(all));
    *history = kept;
}

/// The text that keeps a history.
pub fn save_search_history(history: &Vec<String>) -> (r: String)
    ensures
        r@ == history_text(views(history@)),
{
    let mut parts: Vec<&str> = Vec::new();
    let mut i: usize = 0;
    while i < history.len() && i < SEARCH_HISTORY_LIMIT
        invariant
            i <= history.len(),
            i <= SEARCH_HISTORY_LIMIT,
            views(parts@) =~= views(history@).take(i as int),
        decreases history.len() - i,
    {
        let ghost before = parts@;
        parts.push(history[i].as_str());
        assert(views(parts@) =~= views(before).push(history@[i as int]@));
        i += 1;
    }
    assert(views(parts@) =~= recent(views(history@)));
    join(&parts, "\n")
}

/// The history that a state file keeps.
pub fn load_search_history(contents: &str) -> (r: Vec<String>)
    ensures
        views(r@) == recent(searches_in(lines(contents@))),
{
    let file = split_lines(contents);
    let ghost texts = lines(contents@);
    let mut history: Vec<String> = Vec::new();
    let mut i: usize = 0;
    assert(views(history@) =~= searches_in(texts.take(0)));
    while i < file.len()
        invariant
            i <= file.len(),
            texts == views(file@),
            views(history@) == searches_in(texts.take(i as int)),
        decreases file.len() - i,
    {
        assert(texts.take(i as int + 1).drop_last() =~= texts.take(i as int));
        assert(texts.take(i as int + 1).last() == file@[i as int]@);
        let query = trim(file[i]);
        if !query.is_empty() {
            let ghost before = history@;
            history.push(query.to_owned());
            assert(views(history@) =~= views(before).push(query@));
        }
        i += 1;
    }
    assert(texts.take(i as int) =~= texts);
    let ghost all = views(history@);
    history.truncate(SEARCH_HISTORY_LIMIT);
    assert(views(history@) =~= recent(all));
    history
}

/// A history as it is kept: not too long, no search twice, none blank, and each on one
/// line.
pub open spec fn tidy(history: Seq<Seq<char>>) -> bool {
    &&& history.len() <= SEARCH_HISTORY_LIMIT
    &&& forall|i: int, j: int|
        0 <= i < j < history.len() ==> !same_search(#[trigger] history[i], #[trigger] history[j])
    &&& forall|i: int| 0 <= i < history.len() ==> is_search(#[trigger] history[i])
}

/// A search as it is kept: trimmed, not blank, on one line.
pub open spec fn is_search(query: Seq<char>) -> bool {
    &&& query.len() > 0
    &&& trimmed(query) == query
    &&& !query.contains('\n')
}

proof fn lemma_without_search(history: Seq<Seq<char>>, query: Seq<char>)
    ensures
        forall|k: int|
            0 <= k < without_search(history, query).len() ==> !same_search(
                #[trigger] without_search(history, query)[k],
                query,
            ) && history.contains(without_search(history, query)[k]),
        (forall|i: int, j: int|
            0 <= i < j < history.len() ==> !same_search(#[trigger] history[i], #[trigger] history[j]))
            ==> (forall|i: int, j: int|
            0 <= i < j < without_search(history, query).len() ==> !same_search(
                #[trigger] without_search(history, query)[i],
                #[trigger] without_search(history, query)[j],
            )),
    decreases history.len(),
{
    if history.len() > 0 {
        let front = history.drop_last();
        lemma_without_search(front, query);
        let rest = without_search(front, query);
        let all = without_search(history, query);
        assert forall|k: int| 0 <= k < all.len() implies !same_search(#[trigger] all[k], query)
            && history.contains(all[k]) by {
            if k < rest.len() {
                let n = choose|n: int| 0 <= n < front.len() && front[n] == rest[k];
                assert(front.contains(rest[k]));
                assert(history[n] == rest[k]);
            } else {
                assert(history[history.len() - 1] == all[k]);
            }
        }
        if forall|i: int, j: int|
            0 <= i < j < history.len() ==> !same_search(#[trigger] history[i], #[trigger] history[j]) {
            assert forall|i: int, j: int| 0 <= i < j < front.len() implies !same_search(
                #[trigger] front[i],
                #[trigger] front[j],
            ) by {
                assert(front[i] == history[i] && front[j] == history[j]);
            }
            assert forall|i: int, j: int| 0 <= i < j < all.len() implies !same_search(
                #[trigger] all[i],
                #[trigger] all[j],
            ) by {
                assert(all[i] == rest[i]);
                if j < rest.len() {
                    assert(all[j] == rest[j]);
                } else {
                    assert(front.contains(rest[i]));
                    let n = choose|n: int| 0 <= n < front.len() && front[n] == rest[i];
                    assert(history[n] == all[i]);
                    assert(history[history.len() - 1] == all[j]);
                }
            }
        }
    }
}

/// A search keeps the history tidy and comes first in it.
pub proof fn history_stays_tidy(history: Seq<Seq<char>>, query: Seq<char>)
    requires
        tidy(history),
        !query.contains('\n'),
    ensures
        tidy(searched(history, query)),
        trimmed(query).len() > 0 ==> searched(history, query).len() > 0 && searched(
            history,
            query,
        )[0] == trimmed(query),
{
    let q = trimmed(query);
    if q.len() > 0 {
        crate::text::lemma_trimmed_ends(query);
        lemma_without_search(history, q);
        let rest = without_search(history, q);
        let all = seq![q] + rest;
        assert forall|i: int| 0 <= i < all.len() implies is_search(#[trigger] all[i]) by {
            if i > 0 {
                assert(all[i] == rest[i - 1]);
                assert(history.contains(rest[i - 1]));
            }
        }
        assert forall|i: int, j: int| 0 <= i < j < all.len() implies !same_search(
            #[trigger] all[i],
            #[trigger] all[j],
        ) by {
            assert(all[j] == rest[j - 1]);
            if i > 0 {
                assert(all[i] == rest[i - 1]);
            } else {
                assert(!same_search(rest[j - 1], q));
                if same_search(q, rest[j - 1]) {
                    assert forall|k: int| 0 <= k < q.len() implies capital(
                        #[trigger] rest[j - 1][k],
                    ) == capital(q[k]) by {
                        assert(capital(q[k]) == capital(rest[j - 1][k]));
                    }
                }
            }
        }
        let kept = recent(all);
        assert forall|i: int| 0 <= i < kept.len() implies is_search(#[trigger] kept[i]) by {
            assert(kept[i] == all[i]);
        }
    }
}

proof fn lemma_history_lines(history: Seq<Seq<char>>)
    requires
        forall|i: int| 0 <= i < history.len() ==> is_search(#[trigger] history[i]),
    ensures
        lines(joined(history, "\n"@)) == history,
        searches_in(history) == history,
        history.len() > 0 ==> joined(history, "\n"@).len() > 0 && joined(history, "\n"@).last()
            == history.last().last(),
    decreases history.len(),
{
    reveal_strlit("\n");
    assert("\n"@ =~= seq!['\n']);
    if history.len() == 0 {
        assert(lines(joined(history, "\n"@)) =~= history);
        assert(searches_in(history) =~= history);
    } else {
        let front = history.drop_last();
        let last = history.last();
        assert(is_search(history[history.len() - 1]));
        assert forall|i: int| 0 <= i < front.len() implies is_search(#[trigger] front[i]) by {
            assert(front[i] == history[i]);
        }
        lemma_history_lines(front);
        crate::text::lemma_trimmed_ends(last);
        assert(lines(last) =~= seq![last]) by {
            crate::text::lemma_index_of(last, '\n');
            if crate::text::index_of(last, '\n') < last.len() {
                assert(last.contains(last[crate::text::index_of(last, '\n') as int]));
            }
        }
        assert(front.push(last) =~= history);
        if front.len() > 0 {
            let a = joined(front, "\n"@);
            let end = front.last();
            assert(is_search(front[front.len() - 1]));
            crate::text::lemma_trimmed_ends(end);
            crate::text::lemma_lines_ended(a);
            crate::text::lemma_lines_concat(a + "\n"@, last);
            assert(lines(joined(history, "\n"@)) =~= history);
        } else {
            assert(joined(history, "\n"@) == history[0]);
            assert(lines(joined(history, "\n"@)) =~= history);
        }
    }
}

/// A tidy history that is kept is the one that is loaded.
pub proof fn kept_history_loads_again(history: Seq<Seq<char>>)
    requires
        tidy(history),
    ensures
        recent(searches_in(lines(history_text(history)))) == history,
{
    lemma_history_lines(history);
}

/// A search that is new comes in front of the others, which keep their order; one that is
/// there already comes to the front and leaves its place.
pub proof fn searches_keep_their_order(
    before: Seq<Seq<char>>,
    same: Seq<char>,
    behind: Seq<Seq<char>>,
    query: Seq<char>,
)
    requires
        trimmed(query).len() > 0,
        same_search(same, trimmed(query)),
        before.len() + behind.len() < SEARCH_HISTORY_LIMIT,
        forall|i: int| 0 <= i < before.len() ==> !same_search(#[trigger] before[i], trimmed(query)),
        forall|i: int| 0 <= i < behind.len() ==> !same_search(#[trigger] behind[i], trimmed(query)),
    ensures
        searched(before + behind, query) == seq![trimmed(query)] + (before + behind),
        searched(before + seq![same] + behind, query) == seq![trimmed(query)] + (before + behind),
{
    let q = trimmed(query);
    lemma_without_none(before, q);
    lemma_without_none(behind, q);
    lemma_without_parts(before, behind, q);
    lemma_without_parts(before + seq![same], behind, q);
    lemma_without_parts(before, seq![same], q);
    assert(seq![same].drop_last() =~= Seq::<Seq<char>>::empty());
    assert(seq![same].last() == same);
    assert(without_search(Seq::<Seq<char>>::empty(), q) =~= Seq::<Seq<char>>::empty());
    assert(without_search(seq![same], q) == without_search(seq![same].drop_last(), q));
    assert(before + Seq::<Seq<char>>::empty() =~= before);
}

proof fn lemma_without_none(history: Seq<Seq<char>>, q: Seq<char>)
    requires
        forall|i: int| 0 <= i < history.len() ==> !same_search(#[trigger] history[i], q),
    ensures
        without_search(history, q) == history,
    decreases history.len(),
{
    if history.len() > 0 {
        let front = history.drop_last();
        assert forall|i: int| 0 <= i < front.len() implies !same_search(#[trigger] front[i], q) by {
            assert(front[i] == history[i]);
        }
        lemma_without_none(front, q);
        assert(!same_search(history[history.len() - 1], q));
        assert(front.push(history.last()) =~= history);
    } else {
        assert(without_search(history, q) =~= history);
    }
}

proof fn lemma_without_parts(a: Seq<Seq<char>>, b: Seq<Seq<char>>, q: Seq<char>)
    ensures
        without_search(a + b, q) == without_search(a, q) + without_search(b, q),
    decreases b.len(),
{
    if b.len() == 0 {
        assert(a + b =~= a);
        assert(without_search(a, q) + without_search(b, q) =~= without_search(a, q));
    } else {
        lemma_without_parts(a, b.drop_last(), q);
        assert((a + b).drop_last() =~= a + b.drop_last());
        assert((a + b).last() == b.last());
        assert(without_search(a + b, q) =~= without_search(a, q) + without_search(b, q));
    }
}

/// Letters in either case make the same search, other characters only as they are.
pub proof fn case_makes_no_other_search(a: Seq<char>, b: Seq<char>, i: int)
    requires
        a.len() == b.len(),
        0 <= i < a.len(),
    ensures
        same_search(a, a),
        same_search(a, b) ==> same_search(b, a),
        same_search(a, b) && !('a' <= a[i] <= 'z') && !('A' <= a[i] <= 'Z') ==> b[i] == a[i],
        same_search(a, b) && 'A' <= a[i] <= 'Z' ==> b[i] == a[i] || b[i] as int == a[i] as int + 32,
{
    if same_search(a, b) {
        assert forall|k: int| 0 <= k < b.len() implies capital(#[trigger] b[k]) == capital(a[k]) by {
            assert(capital(a[k]) == capital(b[k]));
        }
        assert(capital(a[i]) == capital(b[i]));
    }
}

/// A choice that does not exist is not taken.
pub proof fn only_choices_are_loaded(contents: Option<Seq<char>>, n: nat, otherwise: usize)
    requires
        otherwise < CHOICES,
        n <= usize::MAX,
    ensures
        choice_in(contents, otherwise) < CHOICES,
        choice_in(None, otherwise) == otherwise,
        n >= CHOICES ==> choice_in(Some(decimal(n)), otherwise) == otherwise,
{
    crate::text::lemma_decimal(n);
    lemma_trimmed_is(decimal(n));
    crate::text::decimal_reads_back(n, usize::MAX as nat);
}

} // verus!
