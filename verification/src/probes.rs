//! How the raw output of each probe becomes its status message.

use vstd::prelude::*;
use vstd::string::*;

use crate::pattern::{capture_groups, regex_captures};
use crate::style::{Styled, Tint};
use crate::text::{
    all_digits, contains, contains_text, decimal_text, digits_value, is_digit, lemma_trimmed_idempotent, parse_unsigned, parse_unsigned_text, push_decimal,
    lemma_decimal_roundtrip, same_text, split_whitespace, starts_with, strip_prefix, trim, trimmed, words,
};

verus! {

// ---------------------------------------------------------------- speed test

/// Whether a speed test line that reports the download can be cut after its
/// label: it goes on past `Download` and the character after it is a single
/// byte, so that the byte offset of `Download:` ends on a character.
pub open spec fn speedtest_line_cuttable(line: Seq<char>) -> bool {
    let t = trimmed(line);
    "Download"@.is_prefix_of(t) ==> t.len() > 8 && (t[8] as u32) < 0x80
}

/// The message of a speed test line: the download figure when the trimmed
/// line starts with `Download`, with the label `Download:` cut off.
pub open spec fn spec_speedtest_message(line: Seq<char>) -> Option<Seq<char>> {
    let t = trimmed(line);
    if "Download"@.is_prefix_of(t) {
        Some(trimmed(t.skip(9)))
    } else {
        None
    }
}

/// Whether a speed test line can be read (see `speedtest_line_cuttable`).
pub fn speedtest_line_readable(line: &str) -> (b: bool)
    ensures
        b == speedtest_line_cuttable(line@),
{
    proof {
        reveal_strlit("Download");
    }
    let t = trim(line);
    if !starts_with(t, "Download") {
        return true;
    }
    let n = t.unicode_len();
    n > 8 && (t.get_char(8) as u32) < 0x80
}

/// What a line of the speed test shows, if anything: the download figure.
pub fn speedtest_message(line: &str) -> (r: Option<String>)
    requires
        speedtest_line_cuttable(line@),
    ensures
        r.deep_view() == spec_speedtest_message(line@),
{
    proof {
        reveal_strlit("Download");
    }
    let t = trim(line);
    if !starts_with(t, "Download") {
        return None;
    }
    let n = t.unicode_len();
    let rest = t.substring_char(9, n);
    assert(rest@ =~= t@.skip(9));
    Some(String::from_str(trim(rest)))
}

// ------------------------------------------------------------------- iperf3

/// The message of an iperf3 line: the trimmed line, unless it is empty or
/// the closing `iperf Done.`.
pub open spec fn spec_iperf3_message(line: Seq<char>) -> Option<Seq<char>> {
    let t = trimmed(line);
    if t.len() == 0 || t == "iperf Done."@ {
        None
    } else {
        Some(t)
    }
}

/// What a line of iperf3 shows, if anything.
pub fn iperf3_message(line: &str) -> (r: Option<String>)
    ensures
        r.deep_view() == spec_iperf3_message(line@),
{
    let t = trim(line);
    if t.unicode_len() == 0 || same_text(t, "iperf Done.") {
        None
    } else {
        Some(String::from_str(t))
    }
}

// --------------------------------------------------------------------- ping

/// The message of a ping line: the trimmed line, unless it is empty.
pub open spec fn spec_ping_message(line: Seq<char>) -> Option<Seq<char>> {
    let t = trimmed(line);
    if t.len() == 0 {
        None
    } else {
        Some(t)
    }
}

/// What a line of ping shows, if anything.
pub fn ping_message(line: &str) -> (r: Option<String>)
    ensures
        r.deep_view() == spec_ping_message(line@),
{
    let t = trim(line);
    if t.unicode_len() == 0 {
        None
    } else {
        Some(String::from_str(t))
    }
}

// ------------------------------------------------------------- screen lock

/// The message about a remote screen lock, from what the remote lock query
/// printed: `unlocked` is looked for first, as it contains `locked`.
pub open spec fn spec_screen_lock_message(output: Seq<char>) -> Seq<char> {
    if contains_text(output, "unlocked"@) {
        "🚫 unlocked"@
    } else if contains_text(output, "locked"@) {
        "🔒 locked"@
    } else {
        "—"@
    }
}

/// The message about a remote screen lock, from what the query printed.
pub fn screen_lock_message(output: &str) -> (r: &'static str)
    ensures
        r@ == spec_screen_lock_message(output@),
{
    if contains(output, "unlocked") {
        "🚫 unlocked"
    } else if contains(output, "locked") {
        "🔒 locked"
    } else {
        "—"
    }
}

// ------------------------------------------------------------- audio output

/// The message about the audio output: the name that was printed, trimmed.
pub fn audio_output_message(output: &str) -> (r: String)
    ensures
        r@ == trimmed(output@),
{
    String::from_str(trim(output))
}

// ---------------------------------------------------------- thermal pressure

/// `s` shown green when it is the good value, otherwise red behind
/// `bad_prefix`.
pub open spec fn spec_good_or_bad(s: Seq<char>, good: Seq<char>, bad_prefix: Seq<char>) -> (Seq<char>, Tint) {
    if s == good {
        (s, Tint::Green)
    } else {
        (bad_prefix + s, Tint::Red)
    }
}

/// `s` shown green when it is the good value, otherwise red behind
/// `bad_prefix`.
pub fn auto_color_good_or_bad(s: &str, good_string: &str, bad_prefix: &str) -> (r: Styled)
    ensures
        (r.text@, r.tint) == spec_good_or_bad(s@, good_string@, bad_prefix@),
{
    if same_text(s, good_string) {
        Styled { text: String::from_str(s), tint: Tint::Green }
    } else {
        let mut text = String::from_str(bad_prefix);
        text.append(s);
        Styled { text, tint: Tint::Red }
    }
}

/// The message of a thermal pressure line: the pressure level, without the
/// label `Current pressure level: `, green when nominal and red otherwise.
pub open spec fn spec_thermal_pressure(line: Seq<char>) -> (Seq<char>, Tint) {
    let level = if "Current pressure level: "@.is_prefix_of(line) {
        line.skip("Current pressure level: "@.len() as int)
    } else {
        line
    };
    spec_good_or_bad(trimmed(level), "Nominal"@, "🔥 "@)
}

/// What a line of the thermal pressure probe shows.
pub fn thermal_pressure_message(line: &str) -> (r: Styled)
    ensures
        (r.text@, r.tint) == spec_thermal_pressure(line@),
{
    let level = match strip_prefix(line, "Current pressure level: ") {
        Some(rest) => rest,
        None => line,
    };
    auto_color_good_or_bad(trim(level), "Nominal", "🔥 ")
}

// ----------------------------------------------------------------- charging

/// The message about the charging power, by wattage: alarming up to 30 W,
/// a warning below 60 W, plain below 96 W, blue below 140 W, green at 140 W
/// and purple above.
pub open spec fn spec_charging_label(watts: u32) -> (Seq<char>, Tint) {
    let figure = decimal_text(watts as nat) + " watts"@;
    if watts <= 30 {
        ("🚨 "@ + figure, Tint::Red)
    } else if watts < 60 {
        ("\u{26a0}\u{fe0f} "@ + figure, Tint::Orange)
    } else if watts < 96 {
        ("🔌 "@ + figure, Tint::Plain)
    } else if watts < 140 {
        ("🔌 "@ + figure, Tint::Blue)
    } else if watts == 140 {
        ("🔌 "@ + figure, Tint::Green)
    } else {
        ("🔌 "@ + figure, Tint::Purple)
    }
}

/// The message about the charging power, by wattage.
pub fn charging_label(watts: u32) -> (r: Styled)
    ensures
        (r.text@, r.tint) == spec_charging_label(watts),
{
    let (icon, tint) = if watts <= 30 {
        ("🚨 ", Tint::Red)
    } else if watts < 60 {
        ("\u{26a0}\u{fe0f} ", Tint::Orange)
    } else if watts < 96 {
        ("🔌 ", Tint::Plain)
    } else if watts < 140 {
        ("🔌 ", Tint::Blue)
    } else if watts == 140 {
        ("🔌 ", Tint::Green)
    } else {
        ("🔌 ", Tint::Purple)
    };
    let mut text = String::from_str(icon);
    push_decimal(&mut text, watts as u64);
    text.append(" watts");
    assert(text@ =~= icon@ + (decimal_text(watts as nat) + " watts"@));
    Styled { text, tint }
}

/// What the charging probe does with a line of its output.
#[derive(Debug)]
pub enum ChargingStep {
    /// The line is no wattage: stop reading.
    Stop,
    /// Show this message and read on.
    Show(Styled),
}

/// What the charging probe does with a line: a line that reads as a wattage
/// (see `str::parse` for `u32`), once trimmed, is shown; any other line ends
/// the reading.
pub fn charging_step(line: &str) -> (r: ChargingStep)
    ensures
        match parse_unsigned(trimmed(line@), u32::MAX as nat) {
            Some(watts) => r matches ChargingStep::Show(s) && (s.text@, s.tint)
                == spec_charging_label(watts as u32),
            None => r is Stop,
        },
{
    match parse_unsigned_text(trim(line), u32::MAX as u64) {
        Some(watts) => ChargingStep::Show(charging_label(watts as u32)),
        None => ChargingStep::Stop,
    }
}

// --------------------------------------------------------- IPv4 addresses

/// The message about an interface group's IPv4 address once the first
/// outputs of the address query are known (one per interface, in order):
/// the first address found with its interface; none (`—`) when every
/// interface was asked in vain; `None` while there are interfaces left to ask.
pub open spec fn ipv4_report(names: Seq<Seq<char>>, outputs: Seq<Seq<char>>, from: int) -> Option<Seq<char>>
    decreases outputs.len() - from,
{
    if from >= outputs.len() {
        if outputs.len() < names.len() {
            None
        } else {
            Some("—"@)
        }
    } else if trimmed(outputs[from]).len() > 0 {
        Some(trimmed(outputs[from]) + " ("@ + names[from] + ")"@)
    } else {
        ipv4_report(names, outputs, from + 1)
    }
}

/// What the IPv4 probe does next.
#[derive(Debug)]
pub enum Ipv4Step {
    /// Ask for the address of the interface with this index.
    Query(usize),
    /// Show this message; the probe is done.
    Report(String),
}

/// What the IPv4 probe does next, given the interfaces to ask, in order, and
/// what the address query printed for the first of them: report the first
/// address found, ask the next interface, or report that there is none
/// (at once, for no interfaces at all).
pub fn ipv4_step(names: &Vec<&str>, outputs: &Vec<String>) -> (r: Ipv4Step)
    requires
        outputs@.len() <= names@.len(),
    ensures
        match r {
            Ipv4Step::Query(k) => k == outputs@.len() && ipv4_report(names.deep_view(), outputs.deep_view(), 0) is None,
            Ipv4Step::Report(s) => ipv4_report(names.deep_view(), outputs.deep_view(), 0) == Some(s@),
        },
{
    let ghost ns = names.deep_view();
    let ghost outs = outputs.deep_view();
    let mut i: usize = 0;
    while i < outputs.len()
        invariant
            i <= outputs@.len(),
            outputs@.len() <= names@.len(),
            ns == names.deep_view(),
            outs == outputs.deep_view(),
            ipv4_report(ns, outs, 0) == ipv4_report(ns, outs, i as int),
        decreases outputs.len() - i,
    {
        assert(outs[i as int] == outputs@[i as int]@);
        assert(ns[i as int] == names@[i as int]@);
        let address = trim(outputs[i].as_str());
        if address.unicode_len() > 0 {
            let mut text = String::from_str(address);
            text.append(" (");
            text.append(names[i]);
            text.append(")");
            assert(text@ =~= trimmed(outs[i as int]) + " ("@ + ns[i as int] + ")"@);
            assert(trimmed(outs[i as int]).len() > 0);
            assert(ipv4_report(ns, outs, i as int) == Some(text@));
            return Ipv4Step::Report(text);
        }
        i = i + 1;
    }
    if outputs.len() < names.len() {
        Ipv4Step::Query(outputs.len())
    } else {
        Ipv4Step::Report(String::from_str("—"))
    }
}

/// With no interfaces to ask, the IPv4 probe reports `—` at once.
pub proof fn lemma_ipv4_no_interfaces()
    ensures
        ipv4_report(seq![], seq![], 0) == Some("—"@),
{
}

// -------------------------------------------------------- disk space free

/// The pattern of a disk size in the output of `df`: a number, the initial
/// of its unit, and an `i` where the unit is binary (such as `244Gi`).
pub const DISK_SIZE_PATTERN: &'static str = "([0-9]+)(K|M|G|T)(i?)";

/// The message about free disk space of `number` (which denotes `n`) units
/// `unit`: alarming below 20 or in megabytes or kilobytes, a warning below 50,
/// doubtful below 100, bold up to 200 and green above.
pub open spec fn spec_disk_label(number: Seq<char>, unit: Seq<char>, n: nat) -> (Seq<char>, Tint) {
    let spaced = number + " "@ + unit + "B"@;
    if n < 20 || unit == "M"@ || unit == "K"@ {
        ("🚨 "@ + spaced, Tint::Red)
    } else if n < 50 {
        ("\u{26a0}\u{fe0f} "@ + spaced, Tint::Orange)
    } else if n < 100 {
        ("🤔 "@ + spaced, Tint::Yellow)
    } else if n > 200 {
        (spaced, Tint::Green)
    } else {
        (spaced, Tint::Bold)
    }
}

/// The message about free disk space, from the number and the unit of a
/// disk size.
pub fn disk_free_label(number: &str, unit: &str) -> (r: Styled)
    requires
        parse_unsigned(number@, usize::MAX as nat) is Some,
    ensures
        (r.text@, r.tint) == spec_disk_label(
            number@,
            unit@,
            parse_unsigned(number@, usize::MAX as nat)->0,
        ),
{
    let n = match parse_unsigned_text(number, usize::MAX as u64) {
        Some(n) => n,
        None => 0,
    };
    let mut spaced = String::from_str(number);
    spaced.append(" ");
    spaced.append(unit);
    spaced.append("B");
    if n < 20 || same_text(unit, "M") || same_text(unit, "K") {
        let mut text = String::from_str("🚨 ");
        text.append(spaced.as_str());
        assert(text@ =~= "🚨 "@ + spaced@);
        Styled { text, tint: Tint::Red }
    } else if n < 50 {
        let mut text = String::from_str("\u{26a0}\u{fe0f} ");
        text.append(spaced.as_str());
        assert(text@ =~= "\u{26a0}\u{fe0f} "@ + spaced@);
        Styled { text, tint: Tint::Orange }
    } else if n < 100 {
        let mut text = String::from_str("🤔 ");
        text.append(spaced.as_str());
        assert(text@ =~= "🤔 "@ + spaced@);
        Styled { text, tint: Tint::Yellow }
    } else if n > 200 {
        Styled { text: spaced, tint: Tint::Green }
    } else {
        Styled { text: spaced, tint: Tint::Bold }
    }
}

/// Why a line of `df` cannot be read.
#[derive(Clone, Copy, Debug, PartialEq, Eq, Structural)]
pub enum DiskSpaceError {
    /// The size's number does not fit in a `usize`.
    UnparsableSize,
    /// The size pattern did not give its number, unit and binary mark.
    UnexpectedGroups,
}

/// The message about free disk space from the text of the "available"
/// column of `df`, given what the size pattern found in it (first match): the
/// column as it is when there is no size in it or the size is in binary units
/// (as `244Gi`), else the size, spaced and coloured.
pub open spec fn spec_disk_message(column: Seq<char>, found: Option<Seq<Option<Seq<char>>>>) -> Result<(Seq<char>, Tint), DiskSpaceError> {
    match found {
        None => Ok((column, Tint::Plain)),
        Some(groups) => if groups.len() == 3 && groups[0] is Some && groups[1] is Some && groups[2] is Some {
            if (groups[2]->0).len() > 0 {
                Ok((column, Tint::Plain))
            } else {
                match parse_unsigned(groups[0]->0, usize::MAX as nat) {
                    Some(n) => Ok(spec_disk_label(groups[0]->0, groups[1]->0, n)),
                    None => Err(DiskSpaceError::UnparsableSize),
                }
            }
        } else {
            Err(DiskSpaceError::UnexpectedGroups)
        },
    }
}

/// The message about free disk space from the "available" column of `df`
/// and what the size pattern found in it (see `spec_disk_message`).
pub fn disk_message_from(column: &str, found: Option<Vec<Option<String>>>) -> (r: Result<Styled, DiskSpaceError>)
    ensures
        match r {
            Ok(s) => spec_disk_message(column@, found.deep_view()) == Ok::<(Seq<char>, Tint), DiskSpaceError>((s.text@, s.tint)),
            Err(e) => spec_disk_message(column@, found.deep_view()) == Err::<(Seq<char>, Tint), DiskSpaceError>(e),
        },
{
    match found {
        None => Ok(Styled { text: String::from_str(column), tint: Tint::Plain }),
        Some(groups) => {
            assert(groups.deep_view().len() == groups@.len());
            if groups.len() == 3 && groups[0].is_some() && groups[1].is_some() && groups[2].is_some() {
                let number = match &groups[0] {
                    Some(t) => t.as_str(),
                    None => "",
                };
                let unit = match &groups[1] {
                    Some(t) => t.as_str(),
                    None => "",
                };
                let binary = match &groups[2] {
                    Some(t) => t.as_str(),
                    None => "",
                };
                assert(groups.deep_view()[0] == Some(number@));
                assert(groups.deep_view()[1] == Some(unit@));
                assert(groups.deep_view()[2] == Some(binary@));
                if binary.unicode_len() > 0 {
                    Ok(Styled { text: String::from_str(column), tint: Tint::Plain })
                } else if parse_unsigned_text(number, usize::MAX as u64).is_some() {
                    Ok(disk_free_label(number, unit))
                } else {
                    Err(DiskSpaceError::UnparsableSize)
                }
            } else {
                assert(groups.len() == 3 ==> groups.deep_view()[0] == groups@[0].deep_view());
                assert(groups.len() == 3 ==> groups.deep_view()[1] == groups@[1].deep_view());
                assert(groups.len() == 3 ==> groups.deep_view()[2] == groups@[2].deep_view());
                Err(DiskSpaceError::UnexpectedGroups)
            }
        },
    }
}

/// The message about free disk space from a data line of `df -h --si`: its
/// fourth column (the space available), read with the size pattern.
pub fn disk_space_message(line: &str) -> (r: Result<Styled, DiskSpaceError>)
    requires
        words(line@).len() >= 4,
    ensures
        match r {
            Ok(s) => spec_disk_message(words(line@)[3], regex_captures(DISK_SIZE_PATTERN@, words(line@)[3])) == Ok::<(Seq<char>, Tint), DiskSpaceError>((s.text@, s.tint)),
            Err(e) => spec_disk_message(words(line@)[3], regex_captures(DISK_SIZE_PATTERN@, words(line@)[3])) == Err::<(Seq<char>, Tint), DiskSpaceError>(e),
        },
{
    let columns = split_whitespace(line);
    let column = columns[3];
    let found = capture_groups(DISK_SIZE_PATTERN, column);
    disk_message_from(column, found)
}

/// What the disk space probe does with a line of `df`.
#[derive(Debug)]
pub enum DiskStep {
    /// The header line: read on.
    SkipHeader,
    /// The first data line: show this message and stop reading.
    ShowAndStop(Styled),
}

/// What the disk space probe does with a line of `df`: the header line is
/// passed over; the first data line (the root file system) gives the
/// message (see `disk_space_message`), and ends the reading.
pub fn disk_space_step(is_first_line: bool, line: &str) -> (r: Result<DiskStep, DiskSpaceError>)
    requires
        !is_first_line ==> words(line@).len() >= 4,
    ensures
        is_first_line ==> r matches Ok(DiskStep::SkipHeader),
        !is_first_line ==> match r {
            Ok(DiskStep::ShowAndStop(s)) => spec_disk_message(words(line@)[3], regex_captures(DISK_SIZE_PATTERN@, words(line@)[3])) == Ok::<(Seq<char>, Tint), DiskSpaceError>((s.text@, s.tint)),
            Ok(DiskStep::SkipHeader) => false,
            Err(e) => spec_disk_message(words(line@)[3], regex_captures(DISK_SIZE_PATTERN@, words(line@)[3])) == Err::<(Seq<char>, Tint), DiskSpaceError>(e),
        },
{
    if is_first_line {
        return Ok(DiskStep::SkipHeader);
    }
    match disk_space_message(line) {
        Ok(s) => Ok(DiskStep::ShowAndStop(s)),
        Err(e) => Err(e),
    }
}

// -------------------------------------------------------------------- laws

/// A line that ping or iperf3 shows is never blank and has no whitespace
/// around it.
pub proof fn lemma_shown_lines_are_trimmed(line: Seq<char>)
    ensures
        spec_ping_message(line) matches Some(m) ==> m.len() > 0 && trimmed(m) == m,
        spec_iperf3_message(line) matches Some(m) ==> m.len() > 0 && trimmed(m) == m,
{
    lemma_trimmed_idempotent(line);
}

/// The IPv4 probe asks the interfaces in order until one has an address:
/// while every answer so far is blank, it asks the next interface, and
/// reports `—` only once all were asked; the first address found is reported.
pub proof fn lemma_ipv4_asks_until_found(names: Seq<Seq<char>>, outputs: Seq<Seq<char>>, from: int)
    requires
        0 <= from <= outputs.len(),
        outputs.len() <= names.len(),
    ensures
        (forall|i: int| from <= i < outputs.len() ==> #[trigger] trimmed(outputs[i]).len() == 0) ==> ipv4_report(names, outputs, from) == (if outputs.len() < names.len() {
            None
        } else {
            Some("—"@)
        }),
        forall|k: int| from <= k < outputs.len() && trimmed(outputs[k]).len() > 0 && (forall|i: int| from <= i < k ==> #[trigger] trimmed(outputs[i]).len() == 0) ==> ipv4_report(names, outputs, from) == Some(trimmed(outputs[k]) + " ("@ + names[k] + ")"@),
    decreases outputs.len() - from,
{
    if from < outputs.len() {
        lemma_ipv4_asks_until_found(names, outputs, from + 1);
    }
}

/// iperf3 shows every line that is not blank, trimmed, except the closing
/// `iperf Done.`; blank lines and that one show nothing.
pub proof fn lemma_iperf3_shows_all_but_done(line: Seq<char>)
    ensures
        trimmed(line).len() > 0 && trimmed(line) != "iperf Done."@ ==> spec_iperf3_message(line) == Some(trimmed(line)),
        trimmed(line).len() == 0 || trimmed(line) == "iperf Done."@ ==> spec_iperf3_message(line) is None,
{
}

/// ping shows every line that is not blank, trimmed; only blank lines show
/// nothing.
pub proof fn lemma_ping_shows_every_nonblank_line(line: Seq<char>)
    ensures
        trimmed(line).len() > 0 ==> spec_ping_message(line) == Some(trimmed(line)),
        trimmed(line).len() == 0 ==> spec_ping_message(line) is None,
{
}

/// The free-space label is the size itself, spaced, with its unit and `B`,
/// coloured by the whole number of units: above 200 green, 100 to 200 bold,
/// 50 to 99 doubtful yellow, 20 to 49 a warning, below 20 alarming red; in
/// megabytes or kilobytes it is alarming whatever the number.
pub proof fn lemma_disk_label_by_size(number: Seq<char>, unit: Seq<char>, n: nat)
    ensures
        (unit == "M"@ || unit == "K"@) ==> spec_disk_label(number, unit, n) == ("🚨 "@ + (number + " "@ + unit + "B"@), Tint::Red),
        unit != "M"@ && unit != "K"@ && n > 200 ==> spec_disk_label(number, unit, n) == (number + " "@ + unit + "B"@, Tint::Green),
        unit != "M"@ && unit != "K"@ && 100 <= n <= 200 ==> spec_disk_label(number, unit, n) == (number + " "@ + unit + "B"@, Tint::Bold),
        unit != "M"@ && unit != "K"@ && 50 <= n < 100 ==> spec_disk_label(number, unit, n) == ("🤔 "@ + (number + " "@ + unit + "B"@), Tint::Yellow),
        unit != "M"@ && unit != "K"@ && 20 <= n < 50 ==> spec_disk_label(number, unit, n) == ("\u{26a0}\u{fe0f} "@ + (number + " "@ + unit + "B"@), Tint::Orange),
        n < 20 ==> spec_disk_label(number, unit, n) == ("🚨 "@ + (number + " "@ + unit + "B"@), Tint::Red),
{
}

/// A decimal size read from `df` is coloured by the whole number that its
/// digits denote (not some remainder of it): with more than 200 units of G
/// or T it is shown green as the number, a space, the unit and `B`.
pub proof fn lemma_disk_message_reads_whole_number(column: Seq<char>, number: Seq<char>, unit: Seq<char>)
    requires
        number.len() > 0,
        all_digits(number),
        digits_value(number) <= usize::MAX,
    ensures
        spec_disk_message(column, Some(seq![Some(number), Some(unit), Some(Seq::<char>::empty())]))
            == Ok::<(Seq<char>, Tint), DiskSpaceError>(spec_disk_label(number, unit, digits_value(number))),
        unit != "M"@ && unit != "K"@ && digits_value(number) > 200 ==> spec_disk_message(
            column,
            Some(seq![Some(number), Some(unit), Some(Seq::<char>::empty())]),
        ) == Ok::<(Seq<char>, Tint), DiskSpaceError>((number + " "@ + unit + "B"@, Tint::Green)),
{
    assert(is_digit(number[0]));
    lemma_disk_label_by_size(number, unit, digits_value(number));
}

/// The charging label names the wattage in decimal (which reads back as the
/// wattage) and colours it by the whole wattage: up to 30 W alarming red,
/// below 60 W a warning, below 96 W plain, below 140 W blue, at 140 W green,
/// above purple.
pub proof fn lemma_charging_label_by_wattage(w: u32)
    ensures
        parse_unsigned(decimal_text(w as nat), u32::MAX as nat) == Some(w as nat),
        w <= 30 ==> spec_charging_label(w) == ("🚨 "@ + (decimal_text(w as nat) + " watts"@), Tint::Red),
        30 < w < 60 ==> spec_charging_label(w) == ("\u{26a0}\u{fe0f} "@ + (decimal_text(w as nat) + " watts"@), Tint::Orange),
        60 <= w < 96 ==> spec_charging_label(w) == ("🔌 "@ + (decimal_text(w as nat) + " watts"@), Tint::Plain),
        96 <= w < 140 ==> spec_charging_label(w) == ("🔌 "@ + (decimal_text(w as nat) + " watts"@), Tint::Blue),
        w == 140 ==> spec_charging_label(w) == ("🔌 "@ + (decimal_text(w as nat) + " watts"@), Tint::Green),
        w > 140 ==> spec_charging_label(w) == ("🔌 "@ + (decimal_text(w as nat) + " watts"@), Tint::Purple),
{
    lemma_decimal_roundtrip(w as nat, u32::MAX as nat);
}

/// A speed test line that starts (once trimmed) with `Download:` shows what
/// follows the label, trimmed; a line that does not start with `Download`
/// shows nothing.
pub proof fn lemma_speedtest_shows_download_figure(line: Seq<char>)
    ensures
        "Download:"@.is_prefix_of(trimmed(line)) ==> spec_speedtest_message(line) == Some(
            trimmed(trimmed(line).skip("Download:"@.len() as int)),
        ),
        !"Download"@.is_prefix_of(trimmed(line)) ==> spec_speedtest_message(line) is None,
{
    reveal_strlit("Download:");
    reveal_strlit("Download");
    let t = trimmed(line);
    if "Download:"@.is_prefix_of(t) {
        assert("Download"@ =~= t.subrange(0, 8));
    }
}

/// The screen is reported unlocked whenever the answer mentions `unlocked`,
/// locked when it mentions `locked` only, and unknown (`—`) otherwise.
pub proof fn lemma_screen_lock_by_answer(output: Seq<char>)
    ensures
        contains_text(output, "unlocked"@) ==> spec_screen_lock_message(output) == "🚫 unlocked"@,
        !contains_text(output, "unlocked"@) && contains_text(output, "locked"@) ==> spec_screen_lock_message(output) == "🔒 locked"@,
        !contains_text(output, "locked"@) && !contains_text(output, "unlocked"@) ==> spec_screen_lock_message(output) == "—"@,
{
}

/// A thermal pressure report shows the level after its label, trimmed: green
/// exactly when it is `Nominal`, otherwise red behind `🔥 `.
pub proof fn lemma_thermal_level(level: Seq<char>)
    ensures
        trimmed(level) == "Nominal"@ ==> spec_thermal_pressure("Current pressure level: "@ + level) == (trimmed(level), Tint::Green),
        trimmed(level) != "Nominal"@ ==> spec_thermal_pressure("Current pressure level: "@ + level) == ("🔥 "@ + trimmed(level), Tint::Red),
{
    let label = "Current pressure level: "@;
    let line = label + level;
    assert(label =~= line.subrange(0, label.len() as int));
    assert(line.skip(label.len() as int) =~= level);
}

} // verus!
