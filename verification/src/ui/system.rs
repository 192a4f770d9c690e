//! What the files of the system say: battery, memory, network, jacks, processes, input.
use crate::text::{
    all_digits, all_white, chars, decimal, decimal_reads_back, digits_value, is_digit, is_white,
    is_word, lemma_decimal, lemma_first_line, lemma_first_word, lemma_one_line, lemma_word_has_no,
    lines, number, parse_number, parse_u64, parse_u8, same, split_lines, split_words, trim,
    trimmed, trimming_takes_off_white_space, view_opt, views, white_space_parts_words, without_cr,
    words,
};
use vstd::prelude::*;
use vstd::string::*;

verus! {

/// The output port of the 3.5 mm jack.
pub const PORT_35MM: u8 = 2;

/// The output port of the 4.4 mm jack.
pub const PORT_44MM: u8 = 3;

/// Whether the state file of a switch says that it is on.
pub open spec fn switch_is_on(contents: Option<Seq<char>>) -> bool {
    contents matches Some(text) && trimmed(text) == "1"@
}

/// Whether the state file of a switch, if it can be read, says that it is on.
pub fn switch_active(contents: Option<&str>) -> (r: bool)
    ensures
        r == switch_is_on(view_opt(contents)),
{
    match contents {
        Some(text) => same(trim(text), "1"),
        None => false,
    }
}

/// The port of the jack that is plugged. The balanced one goes first.
pub open spec fn plugged_port(balance: bool, headset: bool) -> Option<u8> {
    if balance {
        Some(PORT_44MM)
    } else if headset {
        Some(PORT_35MM)
    } else {
        None
    }
}

/// The output port to select, none if neither jack is plugged.
pub fn auto_select_output(balance: bool, headset: bool) -> (r: Option<u8>)
    ensures
        r == plugged_port(balance, headset),
{
    if balance {
        Some(PORT_44MM)
    } else if headset {
        Some(PORT_35MM)
    } else {
        None
    }
}

/// Whether a line of the routing table is a default route of the wireless interface.
pub open spec fn is_default_route(line: Seq<char>) -> bool {
    let fields = words(line);
    fields.len() >= 2 && fields[0] == "wlan0"@ && fields[1] == "00000000"@
}

/// Whether the routing table holds such a line behind its head line.
pub open spec fn has_default_route(table: Seq<char>) -> bool {
    exists|i: int| 1 <= i < lines(table).len() && is_default_route(#[trigger] lines(table)[i])
}

/// Whether the wireless network has a default route.
pub fn wifi_has_default_route(routes: &str) -> (r: bool)
    ensures
        r == has_default_route(routes@),
{
    let all = split_lines(routes);
    let ghost texts = lines(routes@);
    let mut i: usize = 1;
    while i < all.len()
        invariant
            1 <= i,
            texts == views(all@),
            texts == lines(routes@),
            forall|k: int| 1 <= k < i && k < texts.len() ==> !is_default_route(#[trigger] texts[k]),
        decreases all.len() - i,
    {
        let fields = split_words(all[i]);
        let ghost parts = words(texts[i as int]);
        assert(fields@.len() == parts.len());
        if fields.len() >= 2 {
            assert(fields@[0]@ == parts[0] && fields@[1]@ == parts[1]);
            if same(fields[0], "wlan0") && same(fields[1], "00000000") {
                assert(is_default_route(texts[i as int]));
                return true;
            }
        }
        i += 1;
    }
    false
}

/// Whether the arguments of a process, each ended by a zero byte, have `argument` among
/// them.
pub open spec fn has_argument(cmdline: Seq<u8>, argument: Seq<u8>) -> bool {
    exists|i: int| #[trigger] is_argument_at(cmdline, argument, i)
}

/// Whether `argument` is what stands between two zero bytes, or the ends, from `i` on.
pub open spec fn is_argument_at(cmdline: Seq<u8>, argument: Seq<u8>, i: int) -> bool {
    let end = i + argument.len();
    &&& 0 <= i
    &&& end <= cmdline.len()
    &&& i == 0 || cmdline[i - 1] == 0
    &&& end == cmdline.len() || cmdline[end] == 0
    &&& cmdline.subrange(i, end) == argument
    &&& !argument.contains(0u8)
}

fn bytes_at(cmdline: &[u8], argument: &[u8], i: usize) -> (r: bool)
    requires
        i <= cmdline@.len(),
        i == 0 || cmdline@[i - 1] == 0,
    ensures
        r == is_argument_at(cmdline@, argument@, i as int),
{
    if argument.len() > cmdline.len() - i {
        return false;
    }
    let end: usize = i + argument.len();
    if end < cmdline.len() && cmdline[end] != 0 {
        return false;
    }
    let mut k: usize = 0;
    while k < argument.len()
        invariant
            k <= argument@.len(),
            i + argument@.len() == end <= cmdline@.len(),
            forall|m: int| 0 <= m < k ==> cmdline@[i + m] == #[trigger] argument@[m],
            forall|m: int| 0 <= m < k ==> #[trigger] argument@[m] != 0,
        decreases argument@.len() - k,
    {
        if cmdline[i + k] != argument[k] || argument[k] == 0 {
            proof {
                assert(cmdline@.subrange(i as int, end as int)[k as int] == cmdline@[i + k]);
                if argument@[k as int] == 0 {
                    assert(argument@.contains(0u8));
                }
            }
            return false;
        }
        k += 1;
    }
    assert(cmdline@.subrange(i as int, end as int) =~= argument@);
    true
}

/// Whether a process was started with an argument.
pub fn cmdline_has_argument(cmdline: &[u8], argument: &[u8]) -> (r: bool)
    ensures
        r == has_argument(cmdline@, argument@),
{
    let mut i: usize = 0;
    loop
        invariant
            i <= cmdline@.len(),
            forall|k: int| 0 <= k < i ==> !is_argument_at(cmdline@, argument@, k),
        decreases cmdline@.len() - i,
    {
        if i == 0 || cmdline[i - 1] == 0 {
            if bytes_at(cmdline, argument, i) {
                return true;
            }
        }
        if i == cmdline.len() {
            return false;
        }
        i += 1;
    }
}

/// The signed number that a text spells.
pub open spec fn signed_number(s: Seq<char>) -> Option<int> {
    if s.len() > 0 && s[0] == '-' {
        let digits = s.skip(1);
        if digits.len() > 0 && all_digits(digits) && digits_value(digits) <= 0x8000_0000 {
            Some(-(digits_value(digits) as int))
        } else {
            None
        }
    } else {
        match number(s, i32::MAX as nat) {
            Some(n) => Some(n as int),
            None => None,
        }
    }
}

/// The process id that the name of an entry under /proc spells.
pub fn parse_pid(name: &str) -> (r: Option<i32>)
    ensures
        match r {
            Some(pid) => signed_number(name@) == Some(pid as int),
            None => signed_number(name@) is None,
        },
{
    let v = chars(name);
    if v.len() > 0 && v[0] == '-' {
        let digits = name.substring_char(1, v.len());
        assert(digits@ =~= name@.skip(1));
        if v.len() > 1 && v[1] == '+' {
            assert(digits@[0] == '+');
            assert(!is_digit(digits@[0]));
            return None;
        }
        match parse_number(digits, 0x8000_0000) {
            Some(n) => Some((-(n as i64)) as i32),
            None => None,
        }
    } else {
        match parse_number(name, 0x7fff_ffff) {
            Some(n) => Some(n as i32),
            None => None,
        }
    }
}

/// Whether an entry under /proc is a process with the given name: the entry's name is
/// made of digits and the command name, if it can be read, is the given one.
pub open spec fn is_process(entry: Seq<char>, comm: Option<Seq<char>>, name: Seq<char>) -> bool {
    all_digits(entry) && (comm matches Some(text) && trimmed(text) == name)
}

/// Whether an entry under /proc is a process with the given name.
pub fn entry_is_process(entry: &str, comm: Option<&str>, name: &str) -> (r: bool)
    ensures
        r == is_process(entry@, view_opt(comm), name@),
{
    let v = chars(entry);
    let mut i: usize = 0;
    while i < v.len()
        invariant
            i <= v.len(),
            v@ == entry@,
            forall|k: int| 0 <= k < i ==> is_digit(#[trigger] entry@[k]),
        decreases v.len() - i,
    {
        if !('0' <= v[i] && v[i] <= '9') {
            assert(!is_digit(entry@[i as int]));
            return false;
        }
        i += 1;
    }
    match comm {
        Some(text) => same(trim(text), name),
        None => false,
    }
}

/// The charge that the battery's state file holds, in percent.
pub open spec fn battery_in(contents: Seq<char>) -> Option<u8> {
    match number(trimmed(contents), 255) {
        Some(n) => if n <= 100 {
            Some(n as u8)
        } else {
            None
        },
        None => None,
    }
}

/// Reads the battery's state file.
pub fn read_battery_percent(contents: &str) -> (r: Option<u8>)
    ensures
        r == battery_in(contents@),
{
    match parse_u8(trim(contents)) {
        Some(n) => {
            if n <= 100 {
                Some(n)
            } else {
                None
            }
        },
        None => None,
    }
}

/// The free space in whole mebibytes, from the number of free blocks and the two block
/// sizes that the system reports. The fragment size goes first; the number of bytes
/// stops at the largest that 64 bits hold.
pub open spec fn free_mb(blocks: u64, fragment_size: u64, block_size: u64) -> int {
    let size = if fragment_size > 0 {
        fragment_size
    } else {
        block_size
    };
    let bytes = blocks as int * size as int;
    capped(bytes) / 1_048_576
}

/// The free space in whole mebibytes.
pub fn storage_free_mb(blocks: u64, fragment_size: u64, block_size: u64) -> (r: u64)
    ensures
        r == free_mb(blocks, fragment_size, block_size),
{
    let size: u64 = if fragment_size > 0 { fragment_size } else { block_size };
    proof {
        assert(0 <= blocks as int * size as int <= u64::MAX as int * u64::MAX as int)
            by (nonlinear_arith)
            requires
                0 <= blocks <= u64::MAX,
                0 <= size <= u64::MAX,
        ;
    }
    let bytes: u128 = blocks as u128 * size as u128;
    let bytes: u64 = if bytes <= u64::MAX as u128 { bytes as u64 } else { u64::MAX };
    bytes / 1_048_576
}

/// The value of a line of the memory report: a key and a number.
pub open spec fn meminfo_entry(line: Seq<char>) -> Option<(Seq<char>, u64)> {
    let fields = words(line);
    if fields.len() < 2 {
        None
    } else {
        match number(fields[1], u64::MAX as nat) {
            Some(n) => Some((fields[0], n as u64)),
            None => None,
        }
    }
}

/// The value that the last line with a key gives it.
pub open spec fn meminfo_value(report: Seq<Seq<char>>, key: Seq<char>) -> Option<u64>
    decreases report.len(),
{
    if report.len() == 0 {
        None
    } else {
        match meminfo_entry(report.last()) {
            Some((k, n)) => if k == key {
                Some(n)
            } else {
                meminfo_value(report.drop_last(), key)
            },
            None => meminfo_value(report.drop_last(), key),
        }
    }
}

pub open spec fn or_zero(value: Option<u64>) -> int {
    match value {
        Some(n) => n as int,
        None => 0,
    }
}

pub open spec fn capped(n: int) -> int {
    if n <= u64::MAX {
        n
    } else {
        u64::MAX as int
    }
}

/// The available memory in kibibytes: as reported, or what is free, buffered and cached.
pub open spec fn available_kb(report: Seq<Seq<char>>) -> int {
    match meminfo_value(report, "MemAvailable:"@) {
        Some(n) => n as int,
        None => capped(
            capped(
                or_zero(meminfo_value(report, "MemFree:"@)) + or_zero(
                    meminfo_value(report, "Buffers:"@),
                ),
            ) + or_zero(meminfo_value(report, "Cached:"@)),
        ),
    }
}

/// The available memory in whole mebibytes, unknown if it is zero.
pub open spec fn available_mb(report: Seq<Seq<char>>) -> Option<u64> {
    if available_kb(report) == 0 {
        None
    } else {
        Some((available_kb(report) / 1024) as u64)
    }
}

fn parse_meminfo_entry<'a>(line: &'a str) -> (r: Option<(&'a str, u64)>)
    ensures
        match r {
            Some((key, n)) => meminfo_entry(line@) == Some((key@, n)),
            None => meminfo_entry(line@) is None,
        },
{
    let fields = split_words(line);
    let ghost parts = words(line@);
    assert(fields@.len() == parts.len());
    if fields.len() < 2 {
        return None;
    }
    assert(fields@[0]@ == parts[0] && fields@[1]@ == parts[1]);
    match parse_u64(fields[1]) {
        Some(n) => Some((fields[0], n)),
        None => None,
    }
}

/// Reads the available memory out of the memory report.
pub fn read_memory_available_mb(meminfo: &str) -> (r: Option<u64>)
    ensures
        r == available_mb(lines(meminfo@)),
{
    let report = split_lines(meminfo);
    let ghost texts = lines(meminfo@);
    let mut available: Option<u64> = None;
    let mut free: u64 = 0;
    let mut buffers: u64 = 0;
    let mut cached: u64 = 0;
    let mut i: usize = 0;
    proof {
        reveal_strlit("MemAvailable:");
        reveal_strlit("MemFree:");
        reveal_strlit("Buffers:");
        reveal_strlit("Cached:");
        assert("MemAvailable:"@.len() == 13 && "MemFree:"@[0] == 'M' && "Buffers:"@[0] == 'B');
        assert("Cached:"@.len() == 7 && "MemFree:"@.len() == 8 && "Buffers:"@.len() == 8);
    }
    while i < report.len()
        invariant
            i <= report.len(),
            texts == views(report@),
            "MemAvailable:"@ != "MemFree:"@,
            "MemAvailable:"@ != "Buffers:"@,
            "MemAvailable:"@ != "Cached:"@,
            "MemFree:"@ != "Buffers:"@,
            "MemFree:"@ != "Cached:"@,
            "Buffers:"@ != "Cached:"@,
            available == meminfo_value(texts.take(i as int), "MemAvailable:"@),
            free == or_zero(meminfo_value(texts.take(i as int), "MemFree:"@)),
            buffers == or_zero(meminfo_value(texts.take(i as int), "Buffers:"@)),
            cached == or_zero(meminfo_value(texts.take(i as int), "Cached:"@)),
        decreases report.len() - i,
    {
        assert(texts.take(i as int + 1).drop_last() =~= texts.take(i as int));
        assert(texts.take(i as int + 1).last() == report@[i as int]@);
        match parse_meminfo_entry(report[i]) {
            Some((key, n)) => {
                if same(key, "MemAvailable:") {
                    available = Some(n);
                } else if same(key, "MemFree:") {
                    free = n;
                } else if same(key, "Buffers:") {
                    buffers = n;
                } else if same(key, "Cached:") {
                    cached = n;
                }
            },
            None => {},
        }
        i += 1;
    }
    assert(texts.take(i as int) =~= texts);
    let kb: u64 = match available {
        Some(n) => n,
        None => free.saturating_add(buffers).saturating_add(cached),
    };
    if kb == 0 {
        None
    } else {
        Some(kb / 1024)
    }
}

/// Two bytes as a number, the low one first.
pub open spec fn le_u16_of(b: Seq<u8>) -> int {
    b[0] + b[1] * 256
}

/// Four bytes as a signed number, the low one first.
pub open spec fn le_i32_of(b: Seq<u8>) -> int {
    let n = b[0] + b[1] * 256 + b[2] * 65536 + b[3] * 16777216;
    if n < 0x8000_0000 {
        n
    } else {
        n - 0x1_0000_0000
    }
}

/// Parse a little-endian u16 from a byte slice.
pub fn le_u16(b: &[u8]) -> (r: u16)
    requires
        b@.len() >= 2,
    ensures
        r == le_u16_of(b@),
{
    b[0] as u16 + b[1] as u16 * 256
}

/// Parse a little-endian i32 from a byte slice.
pub fn le_i32(b: &[u8]) -> (r: i32)
    requires
        b@.len() >= 4,
    ensures
        r == le_i32_of(b@),
{
    let n: i64 = b[0] as i64 + b[1] as i64 * 256 + b[2] as i64 * 65536 + b[3] as i64 * 16777216;
    if n < 0x8000_0000 {
        n as i32
    } else {
        (n - 0x1_0000_0000) as i32
    }
}

/// Two bytes read as the number that they were made of.
pub proof fn le_u16_reads_back(n: u16)
    ensures
        le_u16_of(seq![(n % 256) as u8, (n / 256) as u8]) == n,
{
}

/// Four bytes read as the number that they were made of, negative ones in two's complement.
pub proof fn le_i32_reads_back(n: i32)
    ensures
        ({
            let m: int = if n < 0 {
                n + 0x1_0000_0000
            } else {
                n as int
            };
            le_i32_of(
                seq![
                    (m % 256) as u8,
                    (m / 256 % 256) as u8,
                    (m / 65536 % 256) as u8,
                    (m / 16777216) as u8,
                ],
            ) == n
        }),
{
}

/// Each of the arguments of a process is found among them, however many there are before
/// and behind it.
pub proof fn every_argument_is_found(before: Seq<u8>, argument: Seq<u8>, behind: Seq<u8>)
    requires
        before.len() == 0 || before.last() == 0,
        behind.len() == 0 || behind[0] == 0,
        !argument.contains(0u8),
    ensures
        has_argument(before + argument + behind, argument),
{
    let cmdline = before + argument + behind;
    let i = before.len() as int;
    assert(cmdline.subrange(i, i + argument.len()) =~= argument);
    if i > 0 {
        assert(cmdline[i - 1] == before.last());
    }
    if i + argument.len() < cmdline.len() {
        assert(cmdline[i + argument.len()] == behind[0]);
    }
    assert(is_argument_at(cmdline, argument, i));
}

/// A charge that is written is the one that is read, up to a hundred.
pub proof fn charge_reads_back(percent: nat)
    requires
        percent <= 255,
    ensures
        battery_in(decimal(percent) + "\n"@) == if percent <= 100 {
            Some(percent as u8)
        } else {
            None
        },
{
    crate::text::lemma_decimal(percent);
    crate::text::decimal_reads_back(percent, 255);
    reveal_strlit("\n");
    assert("\n"@ =~= seq!['\n']);
    crate::text::lemma_trim_line_end(decimal(percent));
}

/// A jack that is plugged selects its port, the balanced one first; the ports differ.
pub proof fn plugged_jack_selects_its_port(balance: bool, headset: bool)
    ensures
        plugged_port(balance, headset) is Some <==> balance || headset,
        balance ==> plugged_port(balance, headset) == Some(3u8),
        !balance && headset ==> plugged_port(balance, headset) == Some(2u8),
{
}

/// The free space is the number of free blocks times the size of one, in mebibytes.
pub proof fn free_space_is_blocks_times_size(mebibytes: u64, size: u64)
    requires
        0 < size <= 1_048_576,
        1_048_576int % (size as int) == 0,
        mebibytes <= 0xfff_ffff,
    ensures
        ({
            let blocks = mebibytes as int * (1_048_576int / (size as int));
            blocks <= u64::MAX ==> free_mb(blocks as u64, size, 1) == mebibytes && free_mb(
                blocks as u64,
                0,
                size,
            ) == mebibytes
        }),
{
    let per = 1_048_576int / (size as int);
    vstd::arithmetic::div_mod::lemma_fundamental_div_mod(1_048_576, size as int);
    assert(size as int * per == 1_048_576);
    let blocks = mebibytes as int * per;
    assert(blocks * size as int == mebibytes as int * 1_048_576) by (nonlinear_arith)
        requires
            blocks == mebibytes as int * per,
            size as int * per == 1_048_576,
    ;
    assert(mebibytes as int * 1_048_576 <= u64::MAX);
}

/// The memory that is reported as available goes before what is only free.
pub proof fn reported_memory_goes_first(report: Seq<Seq<char>>, kb: u64)
    requires
        meminfo_value(report, "MemAvailable:"@) == Some(kb),
    ensures
        available_mb(report) == if kb == 0 {
            None
        } else {
            Some((kb / 1024) as u64)
        },
{
}

/// A switch is on if its file holds a one, whatever white space stands around it; one that
/// cannot be read is off.
pub proof fn switch_reads_one(front: Seq<char>, word: Seq<char>, behind: Seq<char>)
    requires
        all_white(front),
        all_white(behind),
        is_word(word),
    ensures
        switch_is_on(Some(front + word + behind)) <==> word.len() == 1 && word[0] == '1',
        !switch_is_on(None),
{
    assert(!is_white(word[0]));
    assert(!is_white(word[word.len() - 1]));
    trimming_takes_off_white_space(front, word, behind);
    reveal_strlit("1");
    if word.len() == 1 && word[0] == '1' {
        assert(word =~= "1"@);
    }
}

/// One route in the table counts if it is the default one of the wireless interface; the
/// head line never does.
pub proof fn default_route_is_found(
    head: Seq<char>,
    interface: Seq<char>,
    target: Seq<char>,
    rest: Seq<char>,
)
    requires
        !head.contains('\n'),
        is_word(interface),
        is_word(target),
        !rest.contains('\n'),
        rest.len() > 0 ==> rest.last() != '\r',
        rest.len() > 0 ==> rest[0] == '\t',
    ensures
        !has_default_route(head + seq!['\n']),
        has_default_route(
            head + seq!['\n'] + (interface + seq!['\t'] + target + rest + seq!['\n']),
        ) <==> interface == "wlan0"@ && target == "00000000"@,
{
    let line = interface + seq!['\t'] + target + rest;
    let table = head + seq!['\n'] + (line + seq!['\n']);
    lemma_word_has_no(interface, '\n');
    lemma_word_has_no(target, '\n');
    assert(!line.contains('\n')) by {
        assert forall|i: int| 0 <= i < line.len() implies line[i] != '\n' by {
            if i < interface.len() {
                assert(interface.contains(interface[i]));
            } else if i == interface.len() {
            } else if i < interface.len() + 1 + target.len() {
                assert(target.contains(target[i - interface.len() - 1]));
            } else {
                assert(rest.contains(rest[i - interface.len() - 1 - target.len()]));
            }
        }
    }
    if rest.len() == 0 {
        assert(line.last() == target.last());
        assert(!is_white(target[target.len() - 1]));
    } else {
        assert(line.last() == rest.last());
    }
    lemma_one_line(line);
    lemma_first_line(head, line + seq!['\n']);
    lemma_first_line(head, seq![]);
    assert(head + seq!['\n'] + Seq::<char>::empty() =~= head + seq!['\n']);
    assert(lines(head + seq!['\n']).len() == 1);
    assert(lines(table) =~= seq![without_cr(head), line]);
    assert(line =~= interface + seq!['\t'] + (target + rest));
    white_space_parts_words(interface, '\t', target + rest);
    lemma_first_word(target, rest);
    assert(words(line) =~= seq![interface, target] + words(rest));
    assert(words(line)[0] == interface);
    assert(words(line)[1] == target);
    assert(lines(table)[1] == line);
    if interface == "wlan0"@ && target == "00000000"@ {
        assert(is_default_route(lines(table)[1]));
    }
}

/// A signed number that is written is the one that is read.
pub proof fn signed_number_reads_back(n: nat)
    ensures
        n <= i32::MAX ==> signed_number(decimal(n)) == Some(n as int),
        n > i32::MAX ==> signed_number(decimal(n)) is None,
        n <= 0x8000_0000 ==> signed_number(seq!['-'] + decimal(n)) == Some(-(n as int)),
        n > 0x8000_0000 ==> signed_number(seq!['-'] + decimal(n)) is None,
{
    lemma_decimal(n);
    assert((seq!['-'] + decimal(n)).skip(1) =~= decimal(n));
    assert(is_digit(decimal(n)[0]));
}

/// A process is known by a number under /proc and by its name.
pub proof fn process_is_known_by_its_name(
    pid: nat,
    entry: Seq<char>,
    comm: Seq<char>,
    name: Seq<char>,
)
    requires
        is_word(comm),
    ensures
        is_process(decimal(pid), Some(comm + "\n"@), name) <==> comm == name,
        !is_process(decimal(pid), None, name),
        !all_digits(entry) ==> !is_process(entry, Some(comm + "\n"@), name),
{
    lemma_decimal(pid);
    reveal_strlit("\n");
    assert(!is_white(comm[0]));
    assert(!is_white(comm[comm.len() - 1]));
    trimming_takes_off_white_space(seq![], comm, "\n"@);
    assert(Seq::<char>::empty() + comm + "\n"@ =~= comm + "\n"@);
}

/// A line of the memory report gives its key its number, whatever the lines before it say,
/// and leaves the other keys alone.
pub proof fn memory_line_is_read(
    report: Seq<Seq<char>>,
    key: Seq<char>,
    other: Seq<char>,
    kb: u64,
    unit: Seq<char>,
)
    requires
        is_word(key),
        unit.len() > 0 ==> unit[0] == ' ',
        other != key,
    ensures
        ({
            let line = key + seq![' '] + decimal(kb as nat) + unit;
            &&& meminfo_value(report.push(line), key) == Some(kb)
            &&& meminfo_value(report.push(line), other) == meminfo_value(report, other)
        }),
{
    let line = key + seq![' '] + decimal(kb as nat) + unit;
    lemma_decimal(kb as nat);
    assert(line =~= key + seq![' '] + (decimal(kb as nat) + unit));
    white_space_parts_words(key, ' ', decimal(kb as nat) + unit);
    lemma_first_word(decimal(kb as nat), unit);
    decimal_reads_back(kb as nat, u64::MAX as nat);
    assert(words(line)[0] == key);
    assert(words(line)[1] == decimal(kb as nat));
    assert(report.push(line).drop_last() =~= report);
    assert(report.push(line).last() == line);
}

/// Where no available memory is reported, what is free, buffered and cached counts.
pub proof fn free_memory_counts_together(report: Seq<Seq<char>>, free: u64, buffers: u64, cached: u64)
    requires
        meminfo_value(report, "MemAvailable:"@) is None,
        meminfo_value(report, "MemFree:"@) == Some(free),
        meminfo_value(report, "Buffers:"@) == Some(buffers),
        meminfo_value(report, "Cached:"@) == Some(cached),
        0 < free + buffers + cached <= u64::MAX,
    ensures
        available_mb(report) == Some(((free + buffers + cached) / 1024) as u64),
{
}

} // verus!
