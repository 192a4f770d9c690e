//! Text primitives of the control protocol: trimming, splitting, decimal numbers.
//!
//! Every function works on characters, so the contracts speak of `Seq<char>`.
use vstd::prelude::*;
use vstd::string::*;

verus! {

/// The views of a sequence of values.
pub open spec fn views<T: View>(s: Seq<T>) -> Seq<T::V> {
    Seq::new(s.len(), |i: int| s[i]@)
}

/// The view of an optional value.
pub open spec fn view_opt<T: View>(o: Option<T>) -> Option<T::V> {
    match o {
        Some(v) => Some(v@),
        None => None,
    }
}

pub open spec fn number_opt(o: Option<u64>) -> Option<nat> {
    match o {
        Some(n) => Some(n as nat),
        None => None,
    }
}

pub open spec fn size_opt(o: Option<usize>) -> Option<nat> {
    match o {
        Some(n) => Some(n as nat),
        None => None,
    }
}

pub open spec fn word_opt(o: Option<u32>) -> Option<nat> {
    match o {
        Some(n) => Some(n as nat),
        None => None,
    }
}

/// The characters with the Unicode `White_Space` property.
pub open spec fn is_white(c: char) -> bool {
    let n = c as int;
    ||| 0x9 <= n <= 0xd
    ||| n == 0x20
    ||| n == 0x85
    ||| n == 0xa0
    ||| n == 0x1680
    ||| 0x2000 <= n <= 0x200a
    ||| n == 0x2028
    ||| n == 0x2029
    ||| n == 0x202f
    ||| n == 0x205f
    ||| n == 0x3000
}

/// `s` without its leading white space.
pub open spec fn trim_start(s: Seq<char>) -> Seq<char>
    decreases s.len(),
{
    if s.len() > 0 && is_white(s[0]) {
        trim_start(s.skip(1))
    } else {
        s
    }
}

/// `s` without its trailing white space.
pub open spec fn trim_end(s: Seq<char>) -> Seq<char>
    decreases s.len(),
{
    if s.len() > 0 && is_white(s.last()) {
        trim_end(s.drop_last())
    } else {
        s
    }
}

/// `s` without the white space at either end.
pub open spec fn trimmed(s: Seq<char>) -> Seq<char> {
    trim_end(trim_start(s))
}

/// How many characters of `s` come before the first `c` (all of them if there is none).
pub open spec fn index_of(s: Seq<char>, c: char) -> nat
    decreases s.len(),
{
    if s.len() == 0 || s[0] == c {
        0
    } else {
        1 + index_of(s.skip(1), c)
    }
}

/// The part of `s` before the first `c`.
pub open spec fn before(s: Seq<char>, c: char) -> Seq<char> {
    s.take(index_of(s, c) as int)
}

/// The part of `s` behind the first `c`, if there is one.
pub open spec fn after(s: Seq<char>, c: char) -> Option<Seq<char>> {
    if index_of(s, c) < s.len() {
        Some(s.skip(index_of(s, c) as int + 1))
    } else {
        None
    }
}

/// The part of `s` behind the last `c` (all of `s` if there is none).
pub open spec fn after_last(s: Seq<char>, c: char) -> Seq<char>
    decreases s.len(),
{
    match after(s, c) {
        Some(rest) => after_last(rest, c),
        None => s,
    }
}

/// How many characters of `s` come before the first white space.
pub open spec fn word_len(s: Seq<char>) -> nat
    decreases s.len(),
{
    if s.len() == 0 || is_white(s[0]) {
        0
    } else {
        1 + word_len(s.skip(1))
    }
}

/// The maximal runs of characters without white space, in order.
pub open spec fn words(s: Seq<char>) -> Seq<Seq<char>>
    decreases s.len(),
{
    if s.len() == 0 {
        seq![]
    } else if is_white(s[0]) {
        words(s.skip(1))
    } else {
        proof {
            lemma_word_len(s);
        }
        seq![s.take(word_len(s) as int)] + words(s.skip(word_len(s) as int))
    }
}

/// `s` without one carriage return at its end.
pub open spec fn without_cr(s: Seq<char>) -> Seq<char> {
    if s.len() > 0 && s.last() == '\r' {
        s.drop_last()
    } else {
        s
    }
}

/// The lines of `s`. A line ends with a line feed, or with a carriage return and
/// a line feed; the last one may end with neither.
pub open spec fn lines(s: Seq<char>) -> Seq<Seq<char>>
    decreases s.len(),
{
    if s.len() == 0 {
        seq![]
    } else {
        match after(s, '\n') {
            Some(rest) => seq![without_cr(before(s, '\n'))] + lines(rest),
            None => seq![s],
        }
    }
}

/// The part of `s` behind the prefix `p`, if `s` starts with it.
pub open spec fn without_prefix(s: Seq<char>, p: Seq<char>) -> Option<Seq<char>> {
    if p.is_prefix_of(s) {
        Some(s.skip(p.len() as int))
    } else {
        None
    }
}

pub open spec fn is_digit(c: char) -> bool {
    '0' <= c <= '9'
}

pub open spec fn all_digits(s: Seq<char>) -> bool {
    forall|i: int| 0 <= i < s.len() ==> is_digit(#[trigger] s[i])
}

/// The number that a run of decimal digits stands for.
pub open spec fn digits_value(s: Seq<char>) -> nat
    decreases s.len(),
{
    if s.len() == 0 {
        0
    } else {
        (digits_value(s.drop_last()) * 10 + (s.last() as int - '0' as int)) as nat
    }
}

/// `s` without one plus sign at its start.
pub open spec fn without_plus(s: Seq<char>) -> Seq<char> {
    if s.len() > 0 && s[0] == '+' {
        s.skip(1)
    } else {
        s
    }
}

/// The unsigned decimal number, at most `max`, that all of `s` spells.
pub open spec fn number(s: Seq<char>, max: nat) -> Option<nat> {
    let digits = without_plus(s);
    if digits.len() > 0 && all_digits(digits) && digits_value(digits) <= max {
        Some(digits_value(digits))
    } else {
        None
    }
}

/// The decimal digit that stands for `d`.
pub open spec fn digit(d: int) -> char {
    (d + '0' as int) as char
}

/// `n` in decimal, without leading zeros.
pub open spec fn decimal(n: nat) -> Seq<char>
    decreases n,
{
    if n < 10 {
        seq![digit(n as int)]
    } else {
        decimal(n / 10).push(digit((n % 10) as int))
    }
}

/// Where `x` first stands in `s`.
pub open spec fn place<A>(s: Seq<A>, x: A) -> Option<nat>
    decreases s.len(),
{
    if s.len() == 0 {
        None
    } else if s[0] == x {
        Some(0)
    } else {
        match place(s.skip(1), x) {
            Some(n) => Some(n + 1),
            None => None,
        }
    }
}

/// A letter a-z as the capital letter, any other character as itself.
pub open spec fn capital(c: char) -> char {
    if 'a' <= c <= 'z' {
        (c as int - 32) as char
    } else {
        c
    }
}

/// `s` with every letter a-z as the capital letter.
pub open spec fn capitals(s: Seq<char>) -> Seq<char> {
    Seq::new(s.len(), |i: int| capital(s[i]))
}

pub open spec fn is_ascii(s: Seq<char>) -> bool {
    forall|i: int| 0 <= i < s.len() ==> (#[trigger] s[i] as int) < 128
}

/// What `str::to_uppercase` makes of a text.
pub uninterp spec fn uppercase(s: Seq<char>) -> Seq<char>;

/// A text without white space that is not empty.
pub open spec fn is_word(s: Seq<char>) -> bool {
    s.len() > 0 && forall|i: int| 0 <= i < s.len() ==> !is_white(#[trigger] s[i])
}

/// `text` between the texts of a list.
pub open spec fn joined(parts: Seq<Seq<char>>, text: Seq<char>) -> Seq<char>
    decreases parts.len(),
{
    if parts.len() == 0 {
        seq![]
    } else if parts.len() == 1 {
        parts[0]
    } else {
        joined(parts.drop_last(), text) + text + parts.last()
    }
}

/// What `String::from_utf8_lossy` makes of bytes.
pub uninterp spec fn utf8_lossy(bytes: Seq<u8>) -> Seq<char>;

/// Texts with a blank between each two.
pub open spec fn blank_joined(parts: Seq<Seq<char>>) -> Seq<char>
    decreases parts.len(),
{
    if parts.len() == 0 {
        seq![]
    } else if parts.len() == 1 {
        parts[0]
    } else {
        parts[0] + (seq![' '] + blank_joined(parts.skip(1)))
    }
}

/// `String::push`. Claimed: it appends the character to the text.
pub assume_specification[ String::push ](s: &mut String, c: char)
    ensures
        final(s)@ == old(s)@.push(c),
;

/// The characters of `s`.
pub fn chars(s: &str) -> (r: Vec<char>)
    ensures
        r@ == s@,
{
    let mut r: Vec<char> = Vec::new();
    for c in it: s.chars()
        invariant
            it.seq() == s@,
            r@ == s@.take(it.index() as int),
    {
        r.push(c);
    }
    r
}

pub fn is_whitespace(c: char) -> (r: bool)
    ensures
        r == is_white(c),
{
    let n: u32 = c as u32;
    (0x9 <= n && n <= 0xd) || n == 0x20 || n == 0x85 || n == 0xa0 || n == 0x1680 || (0x2000 <= n
        && n <= 0x200a) || n == 0x2028 || n == 0x2029 || n == 0x202f || n == 0x205f || n == 0x3000
}

/// The text between two character positions.
fn part<'a>(s: &'a str, from: usize, to: usize) -> (r: &'a str)
    requires
        from <= to <= s@.len(),
    ensures
        r@ == s@.subrange(from as int, to as int),
{
    s.substring_char(from, to)
}

/// Whether two texts are equal.
pub fn same(a: &str, b: &str) -> (r: bool)
    ensures
        r == (a@ == b@),
{
    a.to_owned() == b.to_owned()
}

/// `s` without the white space at either end.
pub fn trim<'a>(s: &'a str) -> (r: &'a str)
    ensures
        r@ == trimmed(s@),
{
    let v = chars(s);
    let mut a: usize = 0;
    assert(s@.skip(0) =~= s@);
    while a < v.len() && is_whitespace(v[a])
        invariant
            a <= v.len(),
            v@ == s@,
            trim_start(s@) == trim_start(s@.skip(a as int)),
        decreases v.len() - a,
    {
        assert(s@.skip(a as int).skip(1) =~= s@.skip(a as int + 1));
        a += 1;
    }
    assert(trim_start(s@) == s@.skip(a as int));
    let mut b: usize = v.len();
    assert(s@.skip(a as int) =~= s@.subrange(a as int, b as int));
    while b > a && is_whitespace(v[b - 1])
        invariant
            a <= b <= v.len(),
            v@ == s@,
            trim_end(s@.skip(a as int)) == trim_end(s@.subrange(a as int, b as int)),
        decreases b,
    {
        assert(s@.subrange(a as int, b as int).drop_last() =~= s@.subrange(a as int, b as int - 1));
        b -= 1;
    }
    part(s, a, b)
}

/// The part of `s` behind the prefix `p`, if `s` starts with it.
pub fn strip_prefix<'a>(s: &'a str, p: &str) -> (r: Option<&'a str>)
    ensures
        view_opt(r) == without_prefix(s@, p@),
{
    let v = chars(s);
    let w = chars(p);
    if w.len() > v.len() {
        return None;
    }
    let mut i: usize = 0;
    while i < w.len()
        invariant
            i <= w.len() <= v.len(),
            v@ == s@,
            w@ == p@,
            forall|k: int| 0 <= k < i ==> v@[k] == #[trigger] w@[k],
        decreases w.len() - i,
    {
        if v[i] != w[i] {
            assert(s@.subrange(0, p@.len() as int)[i as int] != p@[i as int]);
            return None;
        }
        i += 1;
    }
    Some(part(s, w.len(), v.len()))
}

/// Whether `s` starts with `p`.
pub fn starts_with(s: &str, p: &str) -> (r: bool)
    ensures
        r == p@.is_prefix_of(s@),
{
    strip_prefix(s, p).is_some()
}

/// `s` cut at the first `c`: what stands before it, and what stands behind it.
pub fn split_once<'a>(s: &'a str, c: char) -> (r: (&'a str, Option<&'a str>))
    ensures
        r.0@ == before(s@, c),
        view_opt(r.1) == after(s@, c),
{
    let v = chars(s);
    let mut i: usize = 0;
    while i < v.len() && v[i] != c
        invariant
            i <= v.len(),
            v@ == s@,
            forall|k: int| 0 <= k < i ==> #[trigger] s@[k] != c,
        decreases v.len() - i,
    {
        i += 1;
    }
    proof {
        lemma_index_of_is(s@, c, i as int);
    }
    if i < v.len() {
        (part(s, 0, i), Some(part(s, i + 1, v.len())))
    } else {
        (part(s, 0, i), None)
    }
}

/// The part of `s` behind the last `c` (all of `s` if there is none).
pub fn last_part<'a>(s: &'a str, c: char) -> (r: &'a str)
    ensures
        r@ == after_last(s@, c),
    decreases s@.len(),
{
    let (_, rest) = split_once(s, c);
    match rest {
        Some(rest) => last_part(rest, c),
        None => s,
    }
}

/// The words of `s`, in order.
pub fn split_words<'a>(s: &'a str) -> (r: Vec<&'a str>)
    ensures
        views(r@) == words(s@),
{
    let v = chars(s);
    let mut out: Vec<&'a str> = Vec::new();
    let mut i: usize = 0;
    assert(s@.skip(0) =~= s@);
    while i < v.len()
        invariant
            i <= v.len(),
            v@ == s@,
            words(s@) =~= views(out@) + words(s@.skip(i as int)),
        decreases v.len() - i,
    {
        let ghost rest = s@.skip(i as int);
        if is_whitespace(v[i]) {
            assert(rest.skip(1) =~= s@.skip(i as int + 1));
            i += 1;
        } else {
            let mut j: usize = i;
            while j < v.len() && !is_whitespace(v[j])
                invariant
                    i <= j <= v.len(),
                    v@ == s@,
                    forall|k: int| i <= k < j ==> !is_white(#[trigger] s@[k]),
                decreases v.len() - j,
            {
                j += 1;
            }
            proof {
                lemma_word_len(rest);
                let n = word_len(rest) as int;
                if n < j - i {
                    assert(s@[i + n] == rest[n]);
                } else if n > j - i {
                    assert(rest[j - i] == s@[j as int]);
                }
                assert(rest.take(n) =~= s@.subrange(i as int, j as int));
                assert(rest.skip(n) =~= s@.skip(j as int));
            }
            let ghost old_out = out@;
            out.push(part(s, i, j));
            assert(views(out@) =~= views(old_out).push(rest.take(word_len(rest) as int)));
            i = j;
        }
    }
    assert(words(s@.skip(i as int)) =~= seq![]);
    out
}

/// The lines of `s`, in order.
pub fn split_lines<'a>(s: &'a str) -> (r: Vec<&'a str>)
    ensures
        views(r@) == lines(s@),
{
    let mut out: Vec<&'a str> = Vec::new();
    let mut rest: &'a str = s;
    while !rest.is_empty()
        invariant
            lines(s@) =~= views(out@) + lines(rest@),
        decreases rest@.len(),
    {
        let ghost old_out = out@;
        let (line, behind) = split_once(rest, '\n');
        match behind {
            Some(behind) => {
                let v = chars(line);
                let line = if v.len() > 0 && v[v.len() - 1] == '\r' {
                    part(line, 0, v.len() - 1)
                } else {
                    line
                };
                assert(line@ =~= without_cr(before(rest@, '\n')));
                out.push(line);
                assert(views(out@) =~= views(old_out).push(line@));
                rest = behind;
            },
            None => {
                out.push(rest);
                assert(views(out@) =~= views(old_out).push(rest@));
                rest = part(rest, 0, 0);
            },
        }
    }
    out
}

/// The unsigned decimal number, at most `max`, that all of `s` spells.
pub fn parse_number(s: &str, max: u64) -> (r: Option<u64>)
    ensures
        number_opt(r) == number(s@, max as nat),
{
    let v = chars(s);
    let start: usize = if v.len() > 0 && v[0] == '+' {
        1
    } else {
        0
    };
    let ghost digits = without_plus(s@);
    assert(digits =~= s@.skip(start as int));
    if start == v.len() {
        return None;
    }
    let mut value: u64 = 0;
    let mut i: usize = start;
    assert(digits.take(0) =~= seq![]);
    while i < v.len()
        invariant
            start <= i <= v.len(),
            v@ == s@,
            digits == s@.skip(start as int),
            digits == without_plus(s@),
            all_digits(digits.take(i - start)),
            value == digits_value(digits.take(i - start)),
            value <= max,
        decreases v.len() - i,
    {
        let c = v[i];
        let ghost k = i - start;
        assert(digits[k] == c);
        if !(c >= '0' && c <= '9') {
            assert(!is_digit(digits[k]));
            return None;
        }
        let d: u64 = c as u64 - '0' as u64;
        assert(digits.take(k + 1).drop_last() =~= digits.take(k));
        assert(digits.take(k + 1).last() == c);
        assert(digits_value(digits.take(k + 1)) == value * 10 + d);
        let next: u128 = value as u128 * 10 + d as u128;
        if next > max as u128 {
            proof {
                if all_digits(digits) {
                    lemma_digits_value_grows(digits, k + 1);
                }
            }
            return None;
        }
        value = next as u64;
        i += 1;
        assert forall|m: int| 0 <= m < k + 1 implies is_digit(#[trigger] digits.take(k + 1)[m]) by {
            if m < k {
                assert(is_digit(digits.take(k)[m]));
            }
        }
    }
    assert(digits.take(i - start) =~= digits);
    Some(value)
}

pub fn parse_u64(s: &str) -> (r: Option<u64>)
    ensures
        number_opt(r) == number(s@, u64::MAX as nat),
{
    parse_number(s, u64::MAX)
}

pub fn parse_usize(s: &str) -> (r: Option<usize>)
    ensures
        size_opt(r) == number(s@, usize::MAX as nat),
{
    match parse_number(s, usize::MAX as u64) {
        Some(n) => Some(n as usize),
        None => None,
    }
}

pub fn parse_u32(s: &str) -> (r: Option<u32>)
    ensures
        word_opt(r) == number(s@, u32::MAX as nat),
{
    match parse_number(s, u32::MAX as u64) {
        Some(n) => Some(n as u32),
        None => None,
    }
}

/// `n` in decimal.
pub fn to_decimal(n: u64) -> (r: String)
    ensures
        r@ == decimal(n as nat),
    decreases n,
{
    let d: u8 = (n % 10) as u8;
    let c: char = (d + 48) as char;
    if n < 10 {
        let mut r = String::new();
        r.push(c);
        assert(r@ =~= seq![digit(n as int)]);
        r
    } else {
        let mut r = to_decimal(n / 10);
        r.push(c);
        r
    }
}

/// Appends `n` in decimal.
pub fn append_number(text: &mut String, n: u64)
    ensures
        final(text)@ == old(text)@ + decimal(n as nat),
{
    let digits = to_decimal(n);
    text.append(digits.as_str());
}

/// Where the text `x` first stands in `s`.
pub fn find_text(s: &Vec<String>, x: &str) -> (r: Option<usize>)
    ensures
        size_opt(r) == place(views(s@), x@),
{
    let ghost texts = views(s@);
    let mut i: usize = 0;
    while i < s.len()
        invariant
            i <= s.len(),
            texts == views(s@),
            forall|k: int| 0 <= k < i ==> #[trigger] texts[k] != x@,
        decreases s.len() - i,
    {
        if same(s[i].as_str(), x) {
            proof {
                lemma_place_is(texts, x@, i as int);
            }
            return Some(i);
        }
        i += 1;
    }
    proof {
        lemma_place(texts, x@);
    }
    None
}

/// A copy of a list of texts.
pub fn copy_texts(s: &Vec<String>) -> (r: Vec<String>)
    ensures
        views(r@) == views(s@),
{
    let mut r: Vec<String> = Vec::new();
    let mut i: usize = 0;
    while i < s.len()
        invariant
            i <= s.len(),
            r.len() == i,
            forall|k: int| 0 <= k < i ==> (#[trigger] r@[k])@ == s@[k]@,
        decreases s.len() - i,
    {
        r.push(s[i].clone());
        i += 1;
    }
    assert(views(r@) =~= views(s@));
    r
}

/// `str::to_uppercase`. Claimed: the result depends on the text alone, and of an ASCII
/// text it changes the letters a-z to A-Z and nothing else.
#[verifier::external_body]
pub(crate) fn to_uppercase(s: &str) -> (r: String)
    ensures
        r@ == uppercase(s@),
        is_ascii(s@) ==> r@ == capitals(s@),
{
    s.to_uppercase()
}

/// The parts, with `text` between them.
pub fn join(parts: &Vec<&str>, text: &str) -> (r: String)
    ensures
        r@ == joined(views(parts@), text@),
{
    let ghost all = views(parts@);
    let mut r = String::new();
    let mut i: usize = 0;
    while i < parts.len()
        invariant
            i <= parts.len(),
            all == views(parts@),
            r@ == joined(all.take(i as int), text@),
        decreases parts.len() - i,
    {
        assert(all.take(i as int + 1).drop_last() =~= all.take(i as int));
        if i > 0 {
            r.append(text);
        }
        r.append(parts[i]);
        assert(seq![] + parts@[i as int]@ =~= parts@[i as int]@);
        i += 1;
    }
    assert(all.take(i as int) =~= all);
    r
}

/// The unsigned decimal number up to 255 that all of `s` spells.
pub fn parse_u8(s: &str) -> (r: Option<u8>)
    ensures
        match r {
            Some(n) => number(s@, 255) == Some(n as nat),
            None => number(s@, 255) is None,
        },
{
    match parse_number(s, 255) {
        Some(n) => Some(n as u8),
        None => None,
    }
}

/// `String::from_utf8_lossy`. Claimed: the result depends on the bytes alone, and bytes
/// that are UTF-8 become the text that they encode.
#[verifier::external_body]
pub(crate) fn from_utf8_lossy(bytes: &[u8]) -> (r: String)
    ensures
        r@ == utf8_lossy(bytes@),
        vstd::utf8::valid_utf8(bytes@) ==> r@ == vstd::utf8::decode_utf8(bytes@),
{
    String::from_utf8_lossy(bytes).into_owned()
}

/// A word is part of the text that it starts.
pub proof fn lemma_word_len(s: Seq<char>)
    ensures
        word_len(s) <= s.len(),
        s.len() > 0 && !is_white(s[0]) ==> word_len(s) > 0,
        forall|i: int| 0 <= i < word_len(s) ==> !is_white(#[trigger] s[i]),
        word_len(s) < s.len() ==> is_white(s[word_len(s) as int]),
    decreases s.len(),
{
    if s.len() > 0 && !is_white(s[0]) {
        lemma_word_len(s.skip(1));
        assert forall|i: int| 0 <= i < word_len(s) implies !is_white(#[trigger] s[i]) by {
            if i > 0 {
                assert(s[i] == s.skip(1)[i - 1]);
            }
        }
    }
}

/// Where the first `c` stands.
pub proof fn lemma_index_of(s: Seq<char>, c: char)
    ensures
        index_of(s, c) <= s.len(),
        forall|i: int| 0 <= i < index_of(s, c) ==> #[trigger] s[i] != c,
        index_of(s, c) < s.len() ==> s[index_of(s, c) as int] == c,
    decreases s.len(),
{
    if s.len() > 0 && s[0] != c {
        lemma_index_of(s.skip(1), c);
        assert forall|i: int| 0 <= i < index_of(s, c) implies #[trigger] s[i] != c by {
            if i > 0 {
                assert(s[i] == s.skip(1)[i - 1]);
            }
        }
    }
}

/// A place with no `c` before it, and `c` or the end at it, is where the first `c` stands.
pub proof fn lemma_index_of_is(s: Seq<char>, c: char, k: int)
    requires
        0 <= k <= s.len(),
        forall|i: int| 0 <= i < k ==> #[trigger] s[i] != c,
        k < s.len() ==> s[k] == c,
    ensures
        index_of(s, c) == k,
{
    lemma_index_of(s, c);
}

/// The value of a longer run of digits is no smaller.
proof fn lemma_digits_value_grows(s: Seq<char>, n: int)
    requires
        0 <= n <= s.len(),
        all_digits(s),
    ensures
        digits_value(s.take(n)) <= digits_value(s),
    decreases s.len(),
{
    if n < s.len() {
        assert(s.drop_last().take(n) =~= s.take(n));
        assert(all_digits(s.drop_last()));
        lemma_digits_value_grows(s.drop_last(), n);
        assert(is_digit(s[s.len() - 1]));
    } else {
        assert(s.take(n) =~= s);
    }
}

/// The place of `x` holds it, with no earlier place that does; without a place, `s`
/// does not hold `x`.
pub proof fn lemma_place<A>(s: Seq<A>, x: A)
    ensures
        match place(s, x) {
            Some(n) => n < s.len() && s[n as int] == x && forall|i: int|
                0 <= i < n ==> #[trigger] s[i] != x,
            None => !s.contains(x),
        },
    decreases s.len(),
{
    if s.len() > 0 && s[0] != x {
        let rest = s.skip(1);
        lemma_place(rest, x);
        match place(rest, x) {
            Some(n) => {
                assert forall|i: int| 0 <= i < n + 1 implies #[trigger] s[i] != x by {
                    if i > 0 {
                        assert(s[i] == rest[i - 1]);
                    }
                }
            },
            None => {
                assert forall|i: int| 0 <= i < s.len() implies s[i] != x by {
                    if i > 0 {
                        assert(s[i] == rest[i - 1]);
                    }
                }
            },
        }
    }
}

/// An index that holds `x`, with none before it that does, is its place.
pub proof fn lemma_place_is<A>(s: Seq<A>, x: A, n: int)
    requires
        0 <= n < s.len(),
        s[n] == x,
        forall|i: int| 0 <= i < n ==> #[trigger] s[i] != x,
    ensures
        place(s, x) == Some(n as nat),
{
    lemma_place(s, x);
    assert(s.contains(x));
}

/// A text that starts with a whole line splits into that line and the lines of the rest.
pub proof fn lemma_first_line(line: Seq<char>, rest: Seq<char>)
    requires
        !line.contains('\n'),
    ensures
        lines(line + seq!['\n'] + rest) == seq![without_cr(line)] + lines(rest),
{
    let s = line + seq!['\n'] + rest;
    assert forall|i: int| 0 <= i < line.len() implies #[trigger] s[i] != '\n' by {
        assert(line.contains(line[i]));
    }
    lemma_index_of_is(s, '\n', line.len() as int);
    assert(before(s, '\n') =~= line);
    assert(s.skip(line.len() as int + 1) =~= rest);
}

/// A word, then a blank: the words are that word and those of the rest.
pub proof fn lemma_first_word(word: Seq<char>, rest: Seq<char>)
    requires
        is_word(word),
        rest.len() > 0 ==> is_white(rest[0]),
    ensures
        words(word + rest) == seq![word] + words(rest),
{
    let s = word + rest;
    lemma_word_len(s);
    assert(s[0] == word[0]);
    let n = word_len(s) as int;
    if n < word.len() {
        assert(s[n] == word[n]);
    } else if n > word.len() {
        assert(s[word.len() as int] == rest[0]);
    }
    assert(s.take(n) =~= word);
    assert(s.skip(n) =~= rest);
}

/// A blank in front adds no word.
pub proof fn lemma_words_behind_blank(rest: Seq<char>)
    ensures
        words(seq![' '] + rest) == words(rest),
{
    assert((seq![' '] + rest).skip(1) =~= rest);
}

/// A number in decimal is a word of digits that spells it.
pub proof fn lemma_decimal(n: nat)
    ensures
        decimal(n).len() > 0,
        all_digits(decimal(n)),
        digits_value(decimal(n)) == n,
        is_word(decimal(n)),
    decreases n,
{
    if n < 10 {
        let s = decimal(n);
        assert(s.drop_last() =~= seq![]);
        assert(digits_value(s.drop_last()) == 0);
        assert(s.last() == digit(n as int));
    } else {
        lemma_decimal(n / 10);
        let s = decimal(n);
        assert(s.drop_last() =~= decimal(n / 10));
        assert(s.last() == digit((n % 10) as int));
        assert forall|i: int| 0 <= i < s.len() implies is_digit(#[trigger] s[i]) by {
            if i < s.len() - 1 {
                assert(s[i] == decimal(n / 10)[i]);
            }
        }
    }
    assert forall|i: int| 0 <= i < decimal(n).len() implies !is_white(#[trigger] decimal(n)[i]) by {
        assert(is_digit(decimal(n)[i]));
    }
}

/// Reading a number back from its decimal form gives the number.
pub proof fn decimal_reads_back(n: nat, max: nat)
    requires
        n <= max,
    ensures
        number(decimal(n), max) == Some(n),
{
    lemma_decimal(n);
    assert(is_digit(decimal(n)[0]));
}

/// A text that starts and ends with no white space is trimmed already.
pub proof fn lemma_trimmed_is(s: Seq<char>)
    requires
        s.len() > 0 ==> !is_white(s[0]) && !is_white(s.last()),
    ensures
        trimmed(s) == s,
{
}

/// Trimming takes a line end away from behind such a text.
pub proof fn lemma_trim_line_end(s: Seq<char>)
    requires
        s.len() > 0,
        !is_white(s[0]),
        !is_white(s.last()),
    ensures
        trimmed(s + seq!['\n']) == s,
{
    let t = s + seq!['\n'];
    assert(t[0] == s[0]);
    assert(t.last() == '\n');
    assert(t.drop_last() =~= s);
    assert(trim_start(t) == t);
    assert(trim_end(t) == trim_end(s));
}

/// A text is cut at the first separator.
pub proof fn lemma_cut(head: Seq<char>, c: char, tail: Seq<char>)
    requires
        !head.contains(c),
    ensures
        before(head + seq![c] + tail, c) == head,
        after(head + seq![c] + tail, c) == Some(tail),
{
    let s = head + seq![c] + tail;
    assert forall|i: int| 0 <= i < head.len() implies #[trigger] s[i] != c by {
        assert(head.contains(head[i]));
    }
    lemma_index_of_is(s, c, head.len() as int);
    assert(before(s, c) =~= head);
    assert(s.skip(head.len() as int + 1) =~= tail);
}

/// A word holds no blank, no tab and no line end.
pub proof fn lemma_word_has_no(s: Seq<char>, c: char)
    requires
        is_word(s),
        is_white(c),
    ensures
        !s.contains(c),
{
}

/// A prefix that was put in front comes off again.
pub proof fn lemma_without_prefix(p: Seq<char>, s: Seq<char>)
    ensures
        without_prefix(p + s, p) == Some(s),
{
    assert((p + s).subrange(0, p.len() as int) =~= p);
    assert((p + s).skip(p.len() as int) =~= s);
}

/// Words with a blank between each two are the words of the text.
pub proof fn lemma_words_of_joined(parts: Seq<Seq<char>>)
    requires
        forall|i: int| 0 <= i < parts.len() ==> is_word(#[trigger] parts[i]),
    ensures
        words(blank_joined(parts)) == parts,
    decreases parts.len(),
{
    if parts.len() == 0 {
        assert(words(blank_joined(parts)) =~= parts);
    } else {
        let rest = parts.skip(1);
        assert forall|i: int| 0 <= i < rest.len() implies is_word(#[trigger] rest[i]) by {
            assert(rest[i] == parts[i + 1]);
        }
        lemma_words_of_joined(rest);
        if parts.len() == 1 {
            lemma_first_word(parts[0], seq![]);
            assert(parts[0] + seq![] =~= parts[0]);
            assert(words(seq![]) =~= seq![]);
        } else {
            lemma_first_word(parts[0], seq![' '] + blank_joined(rest));
            lemma_words_behind_blank(blank_joined(rest));
        }
        assert(seq![parts[0]] + rest =~= parts);
    }
}

/// One more text at the end.
pub proof fn lemma_blank_joined_push(parts: Seq<Seq<char>>, text: Seq<char>)
    requires
        parts.len() > 0,
    ensures
        blank_joined(parts.push(text)) == blank_joined(parts) + seq![' '] + text,
    decreases parts.len(),
{
    let all = parts.push(text);
    assert(all.skip(1) =~= parts.skip(1).push(text));
    if parts.len() == 1 {
        assert(all.skip(1) =~= seq![text]);
        assert(blank_joined(all.skip(1)) == text);
        assert(blank_joined(all) =~= blank_joined(parts) + seq![' '] + text);
    } else {
        lemma_blank_joined_push(parts.skip(1), text);
        assert(blank_joined(all) =~= blank_joined(parts) + seq![' '] + text);
    }
}

/// Whole lines in front of a text stay lines of their own.
pub proof fn lemma_lines_concat(a: Seq<char>, b: Seq<char>)
    requires
        a.len() > 0 ==> a.last() == '\n',
    ensures
        lines(a + b) == lines(a) + lines(b),
    decreases a.len(),
{
    if a.len() == 0 {
        assert(a + b =~= b);
        assert(lines(a) + lines(b) =~= lines(b));
    } else {
        lemma_index_of(a, '\n');
        let k = index_of(a, '\n') as int;
        if k == a.len() {
            assert(a[a.len() - 1] != '\n');
        }
        let s = a + b;
        assert forall|i: int| 0 <= i < k implies #[trigger] s[i] != '\n' by {
            assert(s[i] == a[i]);
        }
        lemma_index_of_is(s, '\n', k);
        let rest = a.skip(k + 1);
        assert(s.skip(k + 1) =~= rest + b);
        assert(s.take(k) =~= a.take(k));
        if rest.len() > 0 {
            assert(rest.last() == a.last());
        }
        lemma_lines_concat(rest, b);
        assert(lines(s) =~= lines(a) + lines(b));
    }
}

/// A line end behind the last line makes no difference.
pub proof fn lemma_lines_ended(s: Seq<char>)
    requires
        s.len() > 0,
        s.last() != '\n',
        s.last() != '\r',
    ensures
        lines(s + seq!['\n']) == lines(s),
    decreases s.len(),
{
    lemma_index_of(s, '\n');
    let k = index_of(s, '\n') as int;
    let t = s + seq!['\n'];
    assert forall|i: int| 0 <= i < k implies #[trigger] t[i] != '\n' by {
        assert(t[i] == s[i]);
    }
    lemma_index_of_is(t, '\n', k);
    if k < s.len() {
        let rest = s.skip(k + 1);
        assert(t.skip(k + 1) =~= rest + seq!['\n']);
        assert(t.take(k) =~= s.take(k));
        assert(rest.last() == s.last());
        lemma_lines_ended(rest);
    } else {
        assert(t.take(k) =~= s);
        let rest = t.skip(k + 1);
        assert(rest.len() == 0);
        assert(lines(rest) == Seq::<Seq<char>>::empty());
        assert(lines(t) == seq![without_cr(s)] + lines(rest));
        assert(lines(t) =~= seq![s]);
    }
}

/// One line with its end.
pub proof fn lemma_one_line(s: Seq<char>)
    requires
        !s.contains('\n'),
        s.len() > 0 ==> s.last() != '\r',
    ensures
        lines(s + seq!['\n']) == seq![s],
{
    lemma_first_line(s, seq![]);
    assert(s + seq!['\n'] + seq![] =~= s + seq!['\n']);
    assert(seq![s] + lines(seq![]) =~= seq![s]);
}

/// White space behind a text makes no difference to what trimming leaves of it.
pub proof fn lemma_trim_behind(s: Seq<char>, c: char)
    requires
        is_white(c),
    ensures
        trimmed(s.push(c)) == trimmed(s),
{
    lemma_trim_start_push(s, c);
    let start = trim_start(s);
    if start.len() > 0 {
        assert(start.push(c).drop_last() =~= start);
        assert(start.push(c).last() == c);
    }
}

proof fn lemma_trim_start_push(s: Seq<char>, c: char)
    requires
        is_white(c),
    ensures
        trim_start(s).len() == 0 ==> trim_start(s.push(c)).len() == 0,
        trim_start(s).len() == 0 ==> trim_start(s) == trim_start(s.push(c)),
        trim_start(s).len() > 0 ==> trim_start(s.push(c)) == trim_start(s).push(c),
    decreases s.len(),
{
    if s.len() == 0 {
        assert(s.push(c).skip(1) =~= s);
    } else {
        assert(s.push(c)[0] == s[0]);
        if is_white(s[0]) {
            lemma_trim_start_push(s.skip(1), c);
            assert(s.push(c).skip(1) =~= s.skip(1).push(c));
        }
    }
}

/// What trimming leaves starts and ends with no white space, and is part of the text.
pub proof fn lemma_trimmed_ends(s: Seq<char>)
    ensures
        trimmed(s).len() > 0 ==> !is_white(trimmed(s)[0]) && !is_white(trimmed(s).last()),
        trimmed(trimmed(s)) == trimmed(s),
        forall|c: char| #[trigger] trimmed(s).contains(c) ==> s.contains(c),
{
    lemma_trim_start_ends(s);
    lemma_trim_end_ends(trim_start(s));
    lemma_trimmed_is(trimmed(s));
}

proof fn lemma_trim_start_ends(s: Seq<char>)
    ensures
        trim_start(s).len() > 0 ==> !is_white(trim_start(s)[0]),
        forall|c: char| #[trigger] trim_start(s).contains(c) ==> s.contains(c),
    decreases s.len(),
{
    if s.len() > 0 && is_white(s[0]) {
        lemma_trim_start_ends(s.skip(1));
        assert forall|c: char| trim_start(s).contains(c) implies s.contains(c) by {
            assert(trim_start(s.skip(1)).contains(c));
            assert(s.skip(1).contains(c));
            let k = choose|k: int| 0 <= k < s.skip(1).len() && s.skip(1)[k] == c;
            assert(s[k + 1] == c);
        }
    }
}

proof fn lemma_trim_end_ends(s: Seq<char>)
    ensures
        trim_end(s).len() > 0 ==> trim_end(s)[0] == s[0] && !is_white(trim_end(s).last()),
        forall|c: char| #[trigger] trim_end(s).contains(c) ==> s.contains(c),
    decreases s.len(),
{
    if s.len() > 0 && is_white(s.last()) {
        lemma_trim_end_ends(s.drop_last());
        assert forall|c: char| trim_end(s).contains(c) implies s.contains(c) by {
            assert(trim_end(s.drop_last()).contains(c));
            assert(s.drop_last().contains(c));
            let k = choose|k: int| 0 <= k < s.drop_last().len() && s.drop_last()[k] == c;
            assert(s[k] == c);
        }
    }
}

pub open spec fn all_white(s: Seq<char>) -> bool {
    forall|i: int| 0 <= i < s.len() ==> is_white(#[trigger] s[i])
}

/// Trimming takes off the white space around a text, and nothing else.
pub proof fn trimming_takes_off_white_space(front: Seq<char>, s: Seq<char>, behind: Seq<char>)
    requires
        all_white(front),
        all_white(behind),
        s.len() > 0,
        !is_white(s[0]),
        !is_white(s.last()),
    ensures
        trimmed(front + s + behind) == s,
    decreases front.len() + behind.len(),
{
    if behind.len() > 0 {
        let less = front + s + behind.drop_last();
        assert(front + s + behind =~= less.push(behind.last()));
        lemma_trim_behind(less, behind.last());
        trimming_takes_off_white_space(front, s, behind.drop_last());
    } else if front.len() > 0 {
        let all = front + s + behind;
        assert(all.skip(1) =~= front.skip(1) + s + behind);
        assert(all[0] == front[0]);
        assert(trim_start(all) == trim_start(all.skip(1)));
        trimming_takes_off_white_space(front.skip(1), s, behind);
    } else {
        assert(front + s + behind =~= s);
        lemma_trimmed_is(s);
    }
}

/// A letter a-z becomes the capital letter at the same place of the alphabet; any other
/// character stays.
pub proof fn letters_become_capitals(s: Seq<char>, i: int)
    requires
        0 <= i < s.len(),
    ensures
        capitals(s).len() == s.len(),
        'a' <= s[i] <= 'z' ==> capitals(s)[i] as int - 'A' as int == s[i] as int - 'a' as int,
        !('a' <= s[i] <= 'z') ==> capitals(s)[i] == s[i],
{
}

/// A text read as a number: its digits count by their places, a plus sign in front makes no
/// difference, and nothing else is taken.
pub proof fn numbers_count_by_place(s: Seq<char>, c: char, max: nat)
    requires
        s.len() > 0,
    ensures
        all_digits(s) && is_digit(c) && number(s, max) is Some ==> number(s.push(c), max) == ({
            let n = number(s, max)->0 * 10 + (c as int - '0' as int);
            if n <= max {
                Some(n as nat)
            } else {
                None
            }
        }),
        is_digit(c) ==> number(seq![c], max) == ({
            let n = c as int - '0' as int;
            if n <= max {
                Some(n as nat)
            } else {
                None
            }
        }),
        all_digits(s) ==> number(seq!['+'] + s, max) == number(s, max),
        !is_digit(c) ==> number(s.push(c), max) is None,
        number(seq![], max) is None,
        number(seq!['+'], max) is None,
{
    let more = s.push(c);
    assert(more.drop_last() =~= s);
    assert(more.last() == c);
    assert((seq!['+'] + s).skip(1) =~= s);
    assert(seq!['+'].skip(1).len() == 0);
    if all_digits(s) {
        assert(is_digit(s[0]));
        assert(without_plus(s) == s);
        assert(more[0] == s[0]);
        assert(without_plus(more) == more);
        if is_digit(c) {
            assert(all_digits(more));
            assert(digits_value(more) == digits_value(s) * 10 + (c as int - '0' as int));
        }
    }
    if is_digit(c) {
        let one = seq![c];
        assert(one.drop_last().len() == 0);
        assert(digits_value(one.drop_last()) == 0);
        assert(digits_value(one) == c as int - '0' as int);
        assert(all_digits(one));
    } else {
        let digits = without_plus(more);
        assert(digits.len() > 0);
        assert(digits.last() == c);
        assert(!is_digit(digits[digits.len() - 1]));
    }
}

/// White space parts the words, and is part of none.
pub proof fn white_space_parts_words(word: Seq<char>, c: char, rest: Seq<char>)
    requires
        is_word(word),
        is_white(c),
    ensures
        words(word + seq![c] + rest) == seq![word] + words(rest),
        words(seq![c] + rest) == words(rest),
        words(word) == seq![word],
{
    let tail = seq![c] + rest;
    assert(tail.skip(1) =~= rest);
    assert(word + seq![c] + rest =~= word + tail);
    lemma_first_word(word, tail);
    lemma_first_word(word, seq![]);
    assert(word + Seq::<char>::empty() =~= word);
    assert(seq![word] + words(Seq::<char>::empty()) =~= seq![word]);
}

/// A carriage return before the end of a line belongs to the end.
pub proof fn carriage_return_ends_a_line(line: Seq<char>, rest: Seq<char>)
    requires
        !line.contains('\n'),
        !line.contains('\r'),
    ensures
        lines(line + seq!['\r', '\n'] + rest) == seq![line] + lines(rest),
        lines(line + seq!['\n'] + rest) == seq![line] + lines(rest),
{
    let head = line.push('\r');
    assert(!head.contains('\n')) by {
        assert forall|i: int| 0 <= i < head.len() implies head[i] != '\n' by {
            if i < line.len() {
                assert(line[i] != '\n');
            }
        }
    }
    assert(head.drop_last() =~= line);
    assert(line + seq!['\r', '\n'] + rest =~= head + seq!['\n'] + rest);
    lemma_first_line(head, rest);
    lemma_first_line(line, rest);
    if line.len() > 0 {
        assert(line.contains(line.last()));
    }
}

} // verus!
