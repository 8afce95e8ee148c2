//! The progress record of a job and the parser that keeps it up to date from
//! the encoder's diagnostic lines.
//!
//! Times are whole microseconds. The percentage is kept in thousandths of a
//! percent, so a finished job stands at `FULL_PERCENTAGE`.

use crate::decimal::{
    all_digits, digits_value, is_digit, only_digits, parse_decimal_str, saturated,
};
use crate::pattern::{find, group, group_text, search};
use crate::text::{chars_of, clone_strings, texts};
use vstd::prelude::*;

verus! {

/// The banner field that gives the input's total length.
pub const DURATION_PATTERN: &'static str = r"Duration: (\d+):(\d+):(\d+)\.(\d+)";

/// The elapsed-time field of the statistics line.
pub const TIME_PATTERN: &'static str = r"time=(\d+):(\d+):(\d+)\.(\d+)";

/// The elapsed-time field of the progress channel, as a timestamp.
pub const OUT_TIME_PATTERN: &'static str = r"out_time=(\d+):(\d+):(\d+)\.(\d+)";

/// The elapsed-time field of the progress channel, as a microsecond counter.
pub const OUT_TIME_US_PATTERN: &'static str = r"out_time_us=(\d+)";

/// The older spelling of the counter; the encoder fills it with microseconds
/// too.
pub const OUT_TIME_MS_PATTERN: &'static str = r"out_time_ms=(\d+)";

/// A percentage of one hundred, in thousandths of a percent.
pub const FULL_PERCENTAGE: u32 = 100_000;

/// Where a job stands.
#[derive(Debug)]
pub enum ConversionStatus {
    Pending,
    Running,
    Completed,
    Failed(String),
    Cancelled,
}

/// A status as contracts see it.
pub enum StatusView {
    Pending,
    Running,
    Completed,
    Failed(Seq<char>),
    Cancelled,
}

impl StatusView {
    /// `Completed`, `Failed` and `Cancelled` end a job.
    pub open spec fn is_terminal(self) -> bool {
        self is Completed || self is Failed || self is Cancelled
    }
}

impl View for ConversionStatus {
    type V = StatusView;

    open spec fn view(&self) -> StatusView {
        match self {
            ConversionStatus::Pending => StatusView::Pending,
            ConversionStatus::Running => StatusView::Running,
            ConversionStatus::Completed => StatusView::Completed,
            ConversionStatus::Failed(reason) => StatusView::Failed(reason@),
            ConversionStatus::Cancelled => StatusView::Cancelled,
        }
    }
}

impl Clone for ConversionStatus {
    fn clone(&self) -> (r: Self)
        ensures
            r@ == self@,
    {
        match self {
            ConversionStatus::Pending => ConversionStatus::Pending,
            ConversionStatus::Running => ConversionStatus::Running,
            ConversionStatus::Completed => ConversionStatus::Completed,
            ConversionStatus::Failed(reason) => ConversionStatus::Failed(reason.clone()),
            ConversionStatus::Cancelled => ConversionStatus::Cancelled,
        }
    }
}

impl ConversionStatus {
    /// Whether the job has ended.
    pub fn is_terminal(&self) -> (r: bool)
        ensures
            r == self@.is_terminal(),
    {
        match self {
            ConversionStatus::Pending => false,
            ConversionStatus::Running => false,
            _ => true,
        }
    }
}

/// A point-in-time report on a job.
#[derive(Debug)]
pub struct ConversionProgress {
    pub task_id: String,
    pub status: ConversionStatus,
    /// Thousandths of a percent, `0..=FULL_PERCENTAGE`.
    pub percentage: u32,
    /// Microseconds encoded so far in the current attempt.
    pub current_time: u64,
    /// Microseconds of input; 0 until the encoder has reported it.
    pub duration: u64,
    pub log: Vec<String>,
    pub error_message: Option<String>,
}

/// A progress record as contracts see it.
pub struct ProgressView {
    pub task_id: Seq<char>,
    pub status: StatusView,
    pub percentage: u32,
    pub current_time: u64,
    pub duration: u64,
    pub log: Seq<Seq<char>>,
    pub error_message: Option<Seq<char>>,
}

impl View for ConversionProgress {
    type V = ProgressView;

    open spec fn view(&self) -> ProgressView {
        ProgressView {
            task_id: self.task_id@,
            status: self.status@,
            percentage: self.percentage,
            current_time: self.current_time,
            duration: self.duration,
            log: texts(self.log@),
            error_message: match self.error_message {
                Some(m) => Some(m@),
                None => None,
            },
        }
    }
}

impl ProgressView {
    /// The percentage is in range and not ahead of what elapsed time and
    /// duration give: it is 0 while the duration is unknown.
    pub open spec fn tracks_time(self) -> bool {
        if self.duration == 0 {
            self.percentage == 0
        } else {
            self.percentage <= percentage_of(self.current_time, self.duration)
        }
    }
}

/// The number a captured group writes, if it is a run of ASCII digits.
pub open spec fn number_in(g: Option<Seq<char>>) -> Option<nat> {
    match g {
        Some(t) => if t.len() > 0 && all_digits(t) {
            Some(digits_value(t))
        } else {
            None
        },
        None => None,
    }
}

/// The value of digit `i` of a fraction, 0 past its end.
pub open spec fn fraction_digit(f: Seq<char>, i: int) -> nat {
    if 0 <= i < f.len() {
        (f[i] as nat - '0' as nat) as nat
    } else {
        0
    }
}

/// The microseconds that the fraction digits `f` stand for. Digits past the
/// sixth are dropped.
pub open spec fn fraction_micros(f: Seq<char>) -> nat {
    fraction_digit(f, 0) * 100_000 + fraction_digit(f, 1) * 10_000 + fraction_digit(f, 2) * 1_000
        + fraction_digit(f, 3) * 100 + fraction_digit(f, 4) * 10 + fraction_digit(f, 5)
}

/// The microseconds in a seconds field given as whole part and fraction.
pub open spec fn seconds_in(whole: Option<Seq<char>>, fraction: Option<Seq<char>>) -> Option<nat> {
    match (number_in(whole), fraction) {
        (Some(w), Some(f)) => if f.len() > 0 && all_digits(f) {
            Some(w * 1_000_000 + fraction_micros(f))
        } else {
            None
        },
        _ => None,
    }
}

/// Hours, minutes and microseconds of seconds as one count of microseconds.
pub open spec fn clock_total(hours: nat, minutes: nat, seconds_micros: nat) -> nat {
    hours * 3_600_000_000 + minutes * 60_000_000 + seconds_micros
}

/// `n`, or 0 where there is none.
pub open spec fn or_zero(n: Option<nat>) -> nat {
    match n {
        Some(v) => v,
        None => 0,
    }
}

/// The elapsed time that the groups of a timestamp match give. A field that
/// is no number counts as 0.
pub open spec fn elapsed_of(groups: Seq<Option<Seq<char>>>) -> u64 {
    saturated(
        clock_total(
            or_zero(number_in(group(groups, 1))),
            or_zero(number_in(group(groups, 2))),
            or_zero(seconds_in(group(groups, 3), group(groups, 4))),
        ),
    )
}

/// The duration that the groups of a banner match give: none unless all
/// three fields are numbers.
pub open spec fn duration_of(groups: Seq<Option<Seq<char>>>) -> Option<u64> {
    match (
        number_in(group(groups, 1)),
        number_in(group(groups, 2)),
        seconds_in(group(groups, 3), group(groups, 4)),
    ) {
        (Some(h), Some(m), Some(s)) => Some(saturated(clock_total(h, m, s))),
        _ => None,
    }
}

/// The elapsed time that the groups of a counter match give.
pub open spec fn counter_of(groups: Seq<Option<Seq<char>>>) -> Option<u64> {
    match number_in(group(groups, 1)) {
        Some(v) => Some(saturated(v)),
        None => None,
    }
}

/// The duration a line reports, if it holds the banner field.
pub open spec fn parsed_duration(line: Seq<char>) -> Option<u64> {
    match search(DURATION_PATTERN@, line) {
        Some(groups) => duration_of(groups),
        None => None,
    }
}

/// The elapsed time a line reports. The spellings are tried in a fixed
/// order and the first that matches decides.
pub open spec fn parsed_elapsed(line: Seq<char>) -> Option<u64> {
    if let Some(groups) = search(TIME_PATTERN@, line) {
        Some(elapsed_of(groups))
    } else if let Some(groups) = search(OUT_TIME_PATTERN@, line) {
        Some(elapsed_of(groups))
    } else if let Some(groups) = search(OUT_TIME_US_PATTERN@, line) {
        counter_of(groups)
    } else if let Some(groups) = search(OUT_TIME_MS_PATTERN@, line) {
        counter_of(groups)
    } else {
        None
    }
}

/// `elapsed / duration * 100`, in thousandths of a percent, never above
/// `FULL_PERCENTAGE`. Asks for a known duration.
pub open spec fn percentage_of(elapsed: u64, duration: u64) -> u32
    recommends
        duration > 0,
{
    let p = (elapsed as int * 100_000) / (duration as int);
    if p > 100_000 {
        100_000u32
    } else {
        p as u32
    }
}

/// The duration known once `line` has been read: the first one reported.
pub open spec fn duration_after(known: u64, line: Seq<char>) -> u64 {
    if known == 0 {
        match parsed_duration(line) {
            Some(d) => d,
            None => 0,
        }
    } else {
        known
    }
}

/// The progress record once `line` has been read.
pub open spec fn after_line(p: ProgressView, line: Seq<char>) -> ProgressView {
    let duration = duration_after(p.duration, line);
    let logged = ProgressView { log: p.log.push(line), duration, ..p };
    match parsed_elapsed(line) {
        None => logged,
        Some(t) => {
            let current = if t >= p.current_time {
                t
            } else {
                p.current_time
            };
            ProgressView {
                current_time: current,
                percentage: if duration > 0 {
                    percentage_of(current, duration)
                } else {
                    p.percentage
                },
                ..logged
            }
        },
    }
}

/// The progress record once every line of `lines` has been read in order.
pub open spec fn after_lines(p: ProgressView, lines: Seq<Seq<char>>) -> ProgressView
    decreases lines.len(),
{
    if lines.len() == 0 {
        p
    } else {
        after_line(after_lines(p, lines.drop_last()), lines.last())
    }
}

/// Holding each field to the range of `u64` first does not change the
/// total once that is held to the range.
pub proof fn lemma_clock_total_saturates(h: nat, m: nat, s: nat)
    ensures
        saturated(clock_total(h, m, s)) == saturated(
            clock_total(saturated(h) as nat, saturated(m) as nat, saturated(s) as nat),
        ),
{
}

/// Reads a captured group as a number, held to the range of `u64`.
pub fn read_number(g: Option<&str>) -> (r: Option<u64>)
    ensures
        r == match number_in(g.deep_view()) {
            Some(v) => Some(saturated(v)),
            None => None,
        },
{
    match g {
        Some(t) => parse_decimal_str(t),
        None => None,
    }
}

/// The value of digit `i` of a fraction of ASCII digits.
fn read_fraction_digit(f: &Vec<char>, i: usize) -> (d: u64)
    requires
        all_digits(f@),
    ensures
        d == fraction_digit(f@, i as int),
        d <= 9,
{
    if i < f.len() {
        let c = f[i];
        assert(is_digit(f@[i as int]));
        (c as u32 - '0' as u32) as u64
    } else {
        0
    }
}

/// Reads a seconds field as microseconds, held to the range of `u64`.
pub fn read_seconds(whole: Option<&str>, fraction: Option<&str>) -> (r: Option<u64>)
    ensures
        r == match seconds_in(whole.deep_view(), fraction.deep_view()) {
            Some(v) => Some(saturated(v)),
            None => None,
        },
{
    let w = match read_number(whole) {
        Some(w) => w,
        None => { return None; },
    };
    let f = match fraction {
        Some(f) => chars_of(f),
        None => { return None; },
    };
    if f.len() == 0 || !only_digits(&f) {
        return None;
    }
    let micros: u64 = read_fraction_digit(&f, 0) * 100_000 + read_fraction_digit(&f, 1) * 10_000
        + read_fraction_digit(&f, 2) * 1_000 + read_fraction_digit(&f, 3) * 100
        + read_fraction_digit(&f, 4) * 10 + read_fraction_digit(&f, 5);
    let total: u128 = (w as u128) * 1_000_000u128 + (micros as u128);
    if total > u64::MAX as u128 {
        Some(u64::MAX)
    } else {
        Some(total as u64)
    }
}

/// Hours, minutes and microseconds of seconds as microseconds, held to the
/// range of `u64`.
pub fn clock_sum(hours: u64, minutes: u64, seconds_micros: u64) -> (r: u64)
    ensures
        r == saturated(clock_total(hours as nat, minutes as nat, seconds_micros as nat)),
{
    let total: u128 = (hours as u128) * 3_600_000_000u128 + (minutes as u128) * 60_000_000u128
        + (seconds_micros as u128);
    if total > u64::MAX as u128 {
        u64::MAX
    } else {
        total as u64
    }
}

/// `n`, or 0 where there is none.
fn unwrap_or_zero(n: Option<u64>) -> (r: u64)
    ensures
        r == match n {
            Some(v) => v,
            None => 0,
        },
{
    match n {
        Some(v) => v,
        None => 0,
    }
}

/// The elapsed time in the groups of a timestamp match.
pub fn elapsed_from_groups(groups: &Vec<Option<String>>) -> (r: u64)
    ensures
        r == elapsed_of(groups.deep_view()),
{
    let h = read_number(group_text(groups, 1));
    let m = read_number(group_text(groups, 2));
    let s = read_seconds(group_text(groups, 3), group_text(groups, 4));
    proof {
        let g = groups.deep_view();
        lemma_clock_total_saturates(
            or_zero(number_in(group(g, 1))),
            or_zero(number_in(group(g, 2))),
            or_zero(seconds_in(group(g, 3), group(g, 4))),
        );
    }
    clock_sum(unwrap_or_zero(h), unwrap_or_zero(m), unwrap_or_zero(s))
}

/// The duration in the groups of a banner match.
pub fn duration_from_groups(groups: &Vec<Option<String>>) -> (r: Option<u64>)
    ensures
        r == duration_of(groups.deep_view()),
{
    let h = read_number(group_text(groups, 1));
    let m = read_number(group_text(groups, 2));
    let s = read_seconds(group_text(groups, 3), group_text(groups, 4));
    match (h, m, s) {
        (Some(h), Some(m), Some(s)) => {
            proof {
                let g = groups.deep_view();
                lemma_clock_total_saturates(
                    number_in(group(g, 1))->0,
                    number_in(group(g, 2))->0,
                    seconds_in(group(g, 3), group(g, 4))->0,
                );
            }
            Some(clock_sum(h, m, s))
        },
        _ => None,
    }
}

/// The elapsed time in the groups of a counter match.
pub fn counter_from_groups(groups: &Vec<Option<String>>) -> (r: Option<u64>)
    ensures
        r == counter_of(groups.deep_view()),
{
    read_number(group_text(groups, 1))
}

/// The total duration that `line` reports, if any.
pub fn parse_duration(line: &str) -> (r: Option<u64>)
    ensures
        r == parsed_duration(line@),
{
    match find(DURATION_PATTERN, line) {
        Some(groups) => duration_from_groups(&groups),
        None => None,
    }
}

/// The elapsed time that `line` reports, if any.
pub fn parse_elapsed(line: &str) -> (r: Option<u64>)
    ensures
        r == parsed_elapsed(line@),
{
    if let Some(groups) = find(TIME_PATTERN, line) {
        return Some(elapsed_from_groups(&groups));
    }
    if let Some(groups) = find(OUT_TIME_PATTERN, line) {
        return Some(elapsed_from_groups(&groups));
    }
    if let Some(groups) = find(OUT_TIME_US_PATTERN, line) {
        return counter_from_groups(&groups);
    }
    if let Some(groups) = find(OUT_TIME_MS_PATTERN, line) {
        return counter_from_groups(&groups);
    }
    None
}

/// The share of `duration` that `elapsed` makes, in thousandths of a
/// percent.
pub fn compute_percentage(elapsed: u64, duration: u64) -> (r: u32)
    requires
        duration > 0,
    ensures
        r == percentage_of(elapsed, duration),
        r <= FULL_PERCENTAGE,
{
    let p: u128 = ((elapsed as u128) * 100_000u128) / (duration as u128);
    if p > 100_000u128 {
        100_000u32
    } else {
        p as u32
    }
}

impl ConversionProgress {
    /// The record of a job that has not started.
    pub fn new(task_id: String) -> (r: Self)
        ensures
            r@ == (ProgressView {
                task_id: task_id@,
                status: StatusView::Pending,
                percentage: 0,
                current_time: 0,
                duration: 0,
                log: Seq::empty(),
                error_message: None,
            }),
    {
        let r = ConversionProgress {
            task_id,
            status: ConversionStatus::Pending,
            percentage: 0,
            current_time: 0,
            duration: 0,
            log: Vec::new(),
            error_message: None,
        };
        assert(r@.log =~= Seq::empty());
        r
    }

    /// A copy of the record.
    pub fn snapshot(&self) -> (r: Self)
        ensures
            r@ == self@,
    {
        ConversionProgress {
            task_id: self.task_id.clone(),
            status: self.status.clone(),
            percentage: self.percentage,
            current_time: self.current_time,
            duration: self.duration,
            log: clone_strings(&self.log),
            error_message: match &self.error_message {
                Some(m) => Some(m.clone()),
                None => None,
            },
        }
    }

    /// Appends `text` to the log.
    pub fn push_log(&mut self, text: String)
        ensures
            final(self)@ == (ProgressView { log: old(self)@.log.push(text@), ..old(self)@ }),
    {
        self.log.push(text);
        assert(texts(self.log@) =~= texts(old(self).log@).push(text@));
    }

    /// Reads one diagnostic line: logs it, takes the duration from it if
    /// none is known yet, and moves elapsed time and percentage forward if
    /// the line reports an elapsed time.
    pub fn record_line(&mut self, line: &str)
        ensures
            final(self)@ == after_line(old(self)@, line@),
    {
        self.push_log(line.to_owned());
        if self.duration == 0 {
            if let Some(d) = parse_duration(line) {
                self.duration = d;
            }
        }
        if let Some(t) = parse_elapsed(line) {
            if t > self.current_time {
                self.current_time = t;
            }
            if self.duration > 0 {
                self.percentage = compute_percentage(self.current_time, self.duration);
            }
        }
    }
}

impl Clone for ConversionProgress {
    fn clone(&self) -> (r: Self)
        ensures
            r@ == self@,
    {
        self.snapshot()
    }
}

/// Reading a line never moves elapsed time back, whatever the line reports,
/// never changes a duration that is known, and never touches the status.
pub proof fn lemma_line_keeps_elapsed_and_duration(p: ProgressView, line: Seq<char>)
    ensures
        after_line(p, line).current_time >= p.current_time,
        p.duration > 0 ==> after_line(p, line).duration == p.duration,
        after_line(p, line).status == p.status,
        after_line(p, line).error_message == p.error_message,
        after_line(p, line).log == p.log.push(line),
{
}

/// Reading a line never moves elapsed time back, and never the percentage
/// of a record whose percentage follows its times; the percentage stays
/// within `FULL_PERCENTAGE`.
pub proof fn lemma_line_keeps_progress_monotonic(p: ProgressView, line: Seq<char>)
    requires
        p.tracks_time(),
    ensures
        after_line(p, line).current_time >= p.current_time,
        after_line(p, line).percentage >= p.percentage,
        after_line(p, line).percentage <= FULL_PERCENTAGE,
        after_line(p, line).tracks_time(),
        after_line(p, line).status == p.status,
{
    let q = after_line(p, line);
    if p.duration > 0 {
        lemma_percentage_monotonic(p.current_time, q.current_time, p.duration);
    }
}

/// More elapsed time gives no smaller percentage.
pub proof fn lemma_percentage_monotonic(a: u64, b: u64, duration: u64)
    requires
        a <= b,
        duration > 0,
    ensures
        percentage_of(a, duration) <= percentage_of(b, duration),
        percentage_of(b, duration) <= FULL_PERCENTAGE,
{
    let x = a as int * 100_000;
    let y = b as int * 100_000;
    let d = duration as int;
    assert(x / d <= y / d) by (nonlinear_arith)
        requires
            x <= y,
            d > 0,
    ;
    assert(0 <= x / d) by (nonlinear_arith)
        requires
            0 <= x,
            d > 0,
    ;
}

/// Over any run of lines, elapsed time and percentage only move forward
/// and the percentage stays within `FULL_PERCENTAGE`.
pub proof fn lemma_lines_keep_progress_monotonic(p: ProgressView, lines: Seq<Seq<char>>, i: int)
    requires
        p.tracks_time(),
        0 <= i <= lines.len(),
    ensures
        after_lines(p, lines).tracks_time(),
        after_lines(p, lines).current_time >= after_lines(p, lines.take(i)).current_time,
        after_lines(p, lines).percentage >= after_lines(p, lines.take(i)).percentage,
        after_lines(p, lines).percentage <= FULL_PERCENTAGE,
    decreases lines.len(),
{
    if lines.len() == 0 {
        assert(lines.take(i) =~= lines);
    } else {
        let front = lines.drop_last();
        if i == lines.len() {
            assert(lines.take(i) =~= lines);
            lemma_lines_keep_progress_monotonic(p, front, 0);
            lemma_line_keeps_progress_monotonic(after_lines(p, front), lines.last());
        } else {
            assert(front.take(i) =~= lines.take(i));
            lemma_lines_keep_progress_monotonic(p, front, i);
            lemma_line_keeps_progress_monotonic(after_lines(p, front), lines.last());
        }
    }
}

} // verus!
