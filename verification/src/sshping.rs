//! The figures that `sshping` reports, gathered line by line, and the status
//! message made of them.

use std::time::Duration;
use vstd::prelude::*;
use vstd::string::*;

use crate::pattern::{capture_groups, regex_captures};
use crate::text::{
    chars_without_commas, parse_unsigned, parse_unsigned_chars, trim, trimmed, without_commas,
};

verus! {

/// The pattern of the connection time line.
pub const CONNECT_TIME_PATTERN: &'static str = "Connect time *([0-9,]+)ns";

/// The pattern of the average echo time line.
pub const AVERAGE_PATTERN: &'static str = "Average *([0-9,]+)ns";

/// The pattern of the echo time deviation line.
pub const STD_DEVIATION_PATTERN: &'static str = "Std deviation *([0-9,]+)ns";

/// The figures seen so far, in whole microseconds.
#[derive(Clone, Copy, Debug, PartialEq, Eq, Structural)]
pub struct SshPingFigures {
    pub connect_micros: Option<u64>,
    pub average_micros: Option<u64>,
    pub std_dev_micros: Option<u64>,
}

/// Why a line of `sshping` cannot be read.
#[derive(Clone, Copy, Debug, PartialEq, Eq, Structural)]
pub enum SshPingError {
    /// A figure's nanoseconds do not fit in a `u64`.
    UnparsableFigure,
    /// A pattern did not give exactly its one group.
    UnexpectedGroups,
}

/// The whole microseconds of a figure written in nanoseconds, with commas
/// as thousands separators; `None` where it is no number that fits a `u64`.
pub open spec fn figure_micros(text: Seq<char>) -> Option<nat> {
    match parse_unsigned(without_commas(text), u64::MAX as nat) {
        Some(n) => Some(n / 1000),
        None => None,
    }
}

/// The figure that a pattern found, if it found one: `Ok(None)` for no
/// match, `Ok(Some(text))` for a match of the one group, `Err` for any other
/// shape of result.
pub open spec fn single_group(found: Option<Seq<Option<Seq<char>>>>) -> Result<Option<Seq<char>>, SshPingError> {
    match found {
        None => Ok(None),
        Some(groups) => if groups.len() == 1 && groups[0] is Some {
            Ok(Some(groups[0]->0))
        } else {
            Err(SshPingError::UnexpectedGroups)
        },
    }
}

/// The new value of a figure: the one found, if any, else the old one.
pub open spec fn updated_figure(old: Option<u64>, found: Option<Seq<char>>) -> Option<u64> {
    match found {
        Some(text) => Some(figure_micros(text)->0 as u64),
        None => old,
    }
}

/// Whether a figure that was found can be read.
pub open spec fn figure_readable(found: Option<Seq<char>>) -> bool {
    found matches Some(text) ==> figure_micros(text) is Some
}

/// The figures after the captures of a line: each figure that was found
/// replaces the old one.
pub open spec fn spec_apply(
    figures: SshPingFigures,
    connect: Option<Seq<char>>,
    average: Option<Seq<char>>,
    std_dev: Option<Seq<char>>,
) -> SshPingFigures {
    SshPingFigures {
        connect_micros: updated_figure(figures.connect_micros, connect),
        average_micros: updated_figure(figures.average_micros, average),
        std_dev_micros: updated_figure(figures.std_dev_micros, std_dev),
    }
}

/// What reading a line does to the figures, given what the three patterns
/// found in it (in the order connect time, average, deviation): the
/// updated figures, or why the line cannot be read.
pub open spec fn spec_observe(
    figures: SshPingFigures,
    connect: Option<Seq<Option<Seq<char>>>>,
    average: Option<Seq<Option<Seq<char>>>>,
    std_dev: Option<Seq<Option<Seq<char>>>>,
) -> Result<SshPingFigures, SshPingError> {
    match (single_group(connect), single_group(average), single_group(std_dev)) {
        (Ok(c), Ok(a), Ok(d)) => if figure_readable(c) && figure_readable(a) && figure_readable(d) {
            Ok(spec_apply(figures, c, a, d))
        } else {
            Err(SshPingError::UnparsableFigure)
        },
        _ => Err(SshPingError::UnexpectedGroups),
    }
}

/// The whole microseconds of a figure in nanoseconds with thousands commas.
pub fn read_figure(text: &str) -> (r: Option<u64>)
    ensures
        match r {
            Some(v) => figure_micros(text@) == Some(v as nat),
            None => figure_micros(text@) is None,
        },
{
    let digits = chars_without_commas(text);
    match parse_unsigned_chars(&digits, u64::MAX) {
        Some(n) => Some(n / 1000),
        None => None,
    }
}

/// The one group that a pattern found, if it found one (see `single_group`).
fn found_text(found: &Option<Vec<Option<String>>>) -> (r: Result<Option<&str>, SshPingError>)
    ensures
        match r {
            Ok(Some(t)) => single_group(found.deep_view()) == Ok::<Option<Seq<char>>, SshPingError>(Some(t@)),
            Ok(None) => single_group(found.deep_view()) == Ok::<Option<Seq<char>>, SshPingError>(None),
            Err(e) => single_group(found.deep_view()) == Err::<Option<Seq<char>>, SshPingError>(e),
        },
{
    match found {
        None => Ok(None),
        Some(groups) => {
            assert(groups.deep_view().len() == groups@.len());
            if groups.len() == 1 {
                assert(groups.deep_view()[0] == groups@[0].deep_view());
                match &groups[0] {
                    Some(t) => Ok(Some(t.as_str())),
                    None => Err(SshPingError::UnexpectedGroups),
                }
            } else {
                Err(SshPingError::UnexpectedGroups)
            }
        },
    }
}

/// The new value of a figure, from the one found in a line, if any.
fn update_figure(old: Option<u64>, found: Option<&str>) -> (r: Option<u64>)
    requires
        figure_readable(found.deep_view()),
    ensures
        r == updated_figure(old, found.deep_view()),
{
    match found {
        Some(text) => read_figure(text),
        None => old,
    }
}

impl SshPingFigures {
    /// No figure seen yet.
    pub fn new() -> (r: SshPingFigures)
        ensures
            r.connect_micros is None,
            r.average_micros is None,
            r.std_dev_micros is None,
    {
        SshPingFigures { connect_micros: None, average_micros: None, std_dev_micros: None }
    }

    /// The figures after the captures of a line, each of which must read as
    /// a figure: each figure that was found replaces the old one.
    pub fn apply(&self, connect: Option<&str>, average: Option<&str>, std_dev: Option<&str>) -> (r:
        SshPingFigures)
        requires
            figure_readable(connect.deep_view()),
            figure_readable(average.deep_view()),
            figure_readable(std_dev.deep_view()),
        ensures
            r == spec_apply(*self, connect.deep_view(), average.deep_view(), std_dev.deep_view()),
    {
        SshPingFigures {
            connect_micros: update_figure(self.connect_micros, connect),
            average_micros: update_figure(self.average_micros, average),
            std_dev_micros: update_figure(self.std_dev_micros, std_dev),
        }
    }

    /// The figures after what the three patterns found in a line (see
    /// `spec_observe`).
    pub fn observe_found(
        &self,
        connect: &Option<Vec<Option<String>>>,
        average: &Option<Vec<Option<String>>>,
        std_dev: &Option<Vec<Option<String>>>,
    ) -> (r: Result<SshPingFigures, SshPingError>)
        ensures
            r == spec_observe(*self, connect.deep_view(), average.deep_view(), std_dev.deep_view()),
    {
        let c = match found_text(connect) {
            Ok(c) => c,
            Err(e) => return Err(e),
        };
        let a = match found_text(average) {
            Ok(a) => a,
            Err(e) => return Err(e),
        };
        let d = match found_text(std_dev) {
            Ok(d) => d,
            Err(e) => return Err(e),
        };
        let c_ok = match c {
            Some(t) => read_figure(t).is_some(),
            None => true,
        };
        let a_ok = match a {
            Some(t) => read_figure(t).is_some(),
            None => true,
        };
        let d_ok = match d {
            Some(t) => read_figure(t).is_some(),
            None => true,
        };
        if c_ok && a_ok && d_ok {
            Ok(self.apply(c, a, d))
        } else {
            Err(SshPingError::UnparsableFigure)
        }
    }

    /// The figures after a line of `sshping` output: each of the three
    /// patterns (connect time, average, deviation) that matches the line
    /// replaces its figure.
    pub fn observe_line(&self, line: &str) -> (r: Result<SshPingFigures, SshPingError>)
        ensures
            r == spec_observe(
                *self,
                regex_captures(CONNECT_TIME_PATTERN@, line@),
                regex_captures(AVERAGE_PATTERN@, line@),
                regex_captures(STD_DEVIATION_PATTERN@, line@),
            ),
    {
        let connect = capture_groups(CONNECT_TIME_PATTERN, line);
        let average = capture_groups(AVERAGE_PATTERN, line);
        let std_dev = capture_groups(STD_DEVIATION_PATTERN, line);
        self.observe_found(&connect, &average, &std_dev)
    }
}

/// How `{:?}` writes `Duration::from_micros(micros)`.
pub uninterp spec fn duration_debug_text(micros: u64) -> Seq<char>;

/// `format!("{:?}", Duration::from_micros(micros))` of std: the debug form of
/// a duration (such as `277µs` or `1.5ms`), left to std (see
/// `duration_debug_text`).
#[verifier::external_body]
fn duration_debug(micros: u64) -> (r: String)
    ensures
        r@ == duration_debug_text(micros),
{
    format!("{:?}", Duration::from_micros(micros))
}

/// The parts of the status message, from the written durations of the
/// average, the deviation and the connection time, each where it was seen.
pub open spec fn parts_of(
    average: Option<Seq<char>>,
    std_dev: Option<Seq<char>>,
    connect: Option<Seq<char>>,
) -> Seq<Seq<char>> {
    (match average {
        Some(a) => seq!["⌀ "@ + a],
        None => seq![],
    }) + (match std_dev {
        Some(d) => seq!["± 𝜎 "@ + d],
        None => seq![],
    }) + (match connect {
        Some(c) => seq!["(↔ "@ + c + ")"@],
        None => seq![],
    })
}

/// The written duration of a figure, where it was seen.
pub open spec fn written(micros: Option<u64>) -> Option<Seq<char>> {
    match micros {
        Some(m) => Some(duration_debug_text(m)),
        None => None,
    }
}

/// The parts of the status message: the average, the deviation and the
/// connection time, each where it was seen.
pub open spec fn message_parts(figures: SshPingFigures) -> Seq<Seq<char>> {
    parts_of(written(figures.average_micros), written(figures.std_dev_micros), written(figures.connect_micros))
}

/// `parts` joined by single spaces.
pub open spec fn joined_by_spaces(parts: Seq<Seq<char>>) -> Seq<char>
    decreases parts.len(),
{
    if parts.len() == 0 {
        seq![]
    } else if parts.len() == 1 {
        parts[0]
    } else {
        joined_by_spaces(parts.drop_last()) + " "@ + parts.last()
    }
}

/// Appends `part` to a message, behind a space unless it is the first part.
fn push_part(message: &mut String, parts: Ghost<Seq<Seq<char>>>, first: bool, part: &str)
    requires
        old(message)@ == joined_by_spaces(parts@),
        first == (parts@.len() == 0),
    ensures
        final(message)@ == joined_by_spaces(parts@.push(part@)),
{
    proof {
        reveal_strlit(" ");
    }
    let ghost all = parts@.push(part@);
    assert(all.drop_last() =~= parts@);
    if first {
        assert(old(message)@ =~= Seq::<char>::empty());
    } else {
        message.append(" ");
    }
    message.append(part);
    if first {
        assert(final(message)@ =~= part@);
    } else {
        assert(final(message)@ =~= joined_by_spaces(parts@) + " "@ + part@);
    }
}

/// The status message from the written durations of the average (`⌀`), the
/// deviation (`± 𝜎`) and the connection time (`(↔ …)`), each where it was
/// seen, joined by spaces.
pub fn compose_message(average: Option<&str>, std_dev: Option<&str>, connect: Option<&str>) -> (r:
    String)
    ensures
        r@ == joined_by_spaces(parts_of(average.deep_view(), std_dev.deep_view(), connect.deep_view())),
{
    let mut message = String::new();
    let mut first = true;
    let ghost mut parts: Seq<Seq<char>> = seq![];
    if let Some(a) = average {
        let mut part = String::from_str("⌀ ");
        part.append(a);
        push_part(&mut message, Ghost(parts), first, part.as_str());
        first = false;
        proof {
            parts = parts.push(part@);
        }
    }
    if let Some(d) = std_dev {
        let mut part = String::from_str("± 𝜎 ");
        part.append(d);
        push_part(&mut message, Ghost(parts), first, part.as_str());
        first = false;
        proof {
            parts = parts.push(part@);
        }
    }
    if let Some(c) = connect {
        let mut part = String::from_str("(↔ ");
        part.append(c);
        part.append(")");
        push_part(&mut message, Ghost(parts), first, part.as_str());
        proof {
            parts = parts.push(part@);
        }
    }
    assert(parts =~= parts_of(average.deep_view(), std_dev.deep_view(), connect.deep_view()));
    message
}

/// The written duration of a figure, where it was seen.
fn write_figure(micros: Option<u64>) -> (r: Option<String>)
    ensures
        r.deep_view() == written(micros),
{
    match micros {
        Some(m) => Some(duration_debug(m)),
        None => None,
    }
}

/// The text of an optional string.
fn as_text(s: &Option<String>) -> (r: Option<&str>)
    ensures
        r.deep_view() == s.deep_view(),
{
    match s {
        Some(t) => Some(t.as_str()),
        None => None,
    }
}

impl SshPingFigures {
    /// The status message: the average (`⌀`), the deviation (`± 𝜎`) and the
    /// connection time (`(↔ …)`), each where it was seen, joined by spaces.
    pub fn message(&self) -> (r: String)
        ensures
            r@ == joined_by_spaces(message_parts(*self)),
    {
        let average = write_figure(self.average_micros);
        let std_dev = write_figure(self.std_dev_micros);
        let connect = write_figure(self.connect_micros);
        compose_message(as_text(&average), as_text(&std_dev), as_text(&connect))
    }
}

/// Whether any figure has been seen.
pub open spec fn any_figure(figures: SshPingFigures) -> bool {
    figures.connect_micros is Some || figures.average_micros is Some || figures.std_dev_micros is Some
}

/// The status line after reading `line` (with `figures` the figures after
/// it): the figures, once any was seen; before that, the line itself,
/// trimmed (such as the running `Ping 979/0: 277 us`).
pub open spec fn spec_status_line(figures: SshPingFigures, line: Seq<char>) -> Seq<char> {
    if any_figure(figures) {
        joined_by_spaces(message_parts(figures))
    } else {
        trimmed(line)
    }
}

impl SshPingFigures {
    /// The status line after reading `line`, where `self` holds the figures
    /// after it (see `spec_status_line`).
    pub fn status_line(&self, line: &str) -> (r: String)
        ensures
            r@ == spec_status_line(*self, line@),
    {
        if self.connect_micros.is_some() || self.average_micros.is_some() || self.std_dev_micros.is_some() {
            self.message()
        } else {
            String::from_str(trim(line))
        }
    }
}

/// A figure once seen stays shown: reading further lines may replace a
/// figure, never drop it.
pub proof fn lemma_figures_persist(
    figures: SshPingFigures,
    connect: Option<Seq<Option<Seq<char>>>>,
    average: Option<Seq<Option<Seq<char>>>>,
    std_dev: Option<Seq<Option<Seq<char>>>>,
)
    ensures
        spec_observe(figures, connect, average, std_dev) matches Ok(after) ==> {
            &&& figures.connect_micros is Some ==> after.connect_micros is Some
            &&& figures.average_micros is Some ==> after.average_micros is Some
            &&& figures.std_dev_micros is Some ==> after.std_dev_micros is Some
        },
{
}

/// A line in which no pattern matches leaves the figures as they are.
pub proof fn lemma_unmatched_line_keeps_figures(figures: SshPingFigures)
    ensures
        spec_observe(figures, None, None, None) == Ok::<SshPingFigures, SshPingError>(figures),
{
}

/// Once any figure has been seen (the connection time alone too), the status
/// line is the figures joined, whatever the line just read; with only the
/// connection time seen it is `(↔ …)` around its written duration.
pub proof fn lemma_status_shows_figures_once_seen(figures: SshPingFigures, line: Seq<char>, other: Seq<char>)
    ensures
        figures.connect_micros is Some || figures.average_micros is Some || figures.std_dev_micros is Some
            ==> spec_status_line(figures, line) == joined_by_spaces(message_parts(figures))
            && spec_status_line(figures, line) == spec_status_line(figures, other),
        figures.connect_micros is Some && figures.average_micros is None && figures.std_dev_micros is None
            ==> spec_status_line(figures, line) == "(↔ "@ + duration_debug_text(figures.connect_micros->0) + ")"@,
        figures.connect_micros is None && figures.average_micros is None && figures.std_dev_micros is None
            ==> spec_status_line(figures, line) == trimmed(line),
{
    if let Some(c) = figures.connect_micros {
        if figures.average_micros is None && figures.std_dev_micros is None {
            let parts = message_parts(figures);
            assert(parts =~= seq!["(↔ "@ + duration_debug_text(c) + ")"@]);
        }
    }
}

} // verus!
