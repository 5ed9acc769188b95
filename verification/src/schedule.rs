//! Cron jobs: payload kinds, missed-run policies and schedules, read from text
//! and stepped forward in time.
use vstd::prelude::*;
use crate::numbers::{is_digit, parse_u64_range, parse_u64_text};
use crate::text::{
    is_whitespace_char, is_ws, join2, owned, starts_with, starts_with_str, str_eq, trim, trim_str,
};
use crate::time::{
    StdDuration, Span, Timestamp, add_span, before, checked_add, hour_span, is_before, one_hour,
    parse_rfc3339, parsed_rfc3339, span_from_std, span_of, valid_timestamp,
};

verus! {

#[derive(Debug, Clone, Copy, PartialEq, Eq, Structural)]
pub enum PayloadKind {
    AgentPrompt,
    ShellCommand,
}

impl PayloadKind {
    pub fn as_str(self) -> (r: &'static str)
        ensures
            r@ == payload_kind_text(self),
    {
        match self {
            PayloadKind::AgentPrompt => "agent_prompt",
            PayloadKind::ShellCommand => "shell_command",
        }
    }

    /// The kind a stored name denotes (the inverse of `as_str`).
    pub fn from_text(value: &str) -> (r: Result<Self, ScheduleError>)
        ensures
            r matches Ok(k) ==> payload_kind_text(k) == value@,
            r is Err <==> (value@ != "agent_prompt"@ && value@ != "shell_command"@),
            r matches Err(e) ==> e matches ScheduleError::InvalidPayloadKind(t) && t@ == value@,
    {
        if str_eq(value, "agent_prompt") {
            Ok(PayloadKind::AgentPrompt)
        } else if str_eq(value, "shell_command") {
            Ok(PayloadKind::ShellCommand)
        } else {
            Err(ScheduleError::InvalidPayloadKind(owned(value)))
        }
    }
}

pub open spec fn payload_kind_text(k: PayloadKind) -> Seq<char> {
    match k {
        PayloadKind::AgentPrompt => "agent_prompt"@,
        PayloadKind::ShellCommand => "shell_command"@,
    }
}

#[derive(Debug, Clone, Copy, PartialEq, Eq, Structural)]
pub enum MissedRunPolicy {
    Skip,
    RunOnce,
    CatchUp,
}

pub open spec fn missed_run_policy_text(p: MissedRunPolicy) -> Seq<char> {
    match p {
        MissedRunPolicy::Skip => "skip"@,
        MissedRunPolicy::RunOnce => "run_once"@,
        MissedRunPolicy::CatchUp => "catch_up"@,
    }
}

/// Distinct policies have distinct stored names.
pub proof fn lemma_missed_run_policy_text_injective(a: MissedRunPolicy, b: MissedRunPolicy)
    requires
        missed_run_policy_text(a) == missed_run_policy_text(b),
    ensures
        a == b,
{
    reveal_strlit("skip");
    reveal_strlit("run_once");
    reveal_strlit("catch_up");
    let x = missed_run_policy_text(a);
    let y = missed_run_policy_text(b);
    assert(x.len() == y.len());
    assert(x[0] == y[0]);
}

/// The two payload kinds of a cron job have distinct stored names.
pub proof fn lemma_payload_kind_text_injective(a: PayloadKind, b: PayloadKind)
    requires
        payload_kind_text(a) == payload_kind_text(b),
    ensures
        a == b,
{
    reveal_strlit("agent_prompt");
    reveal_strlit("shell_command");
    assert(payload_kind_text(a).len() == payload_kind_text(b).len());
    assert("agent_prompt"@.len() != "shell_command"@.len());
}

impl MissedRunPolicy {
    pub fn as_str(self) -> (r: &'static str)
        ensures
            r@ == missed_run_policy_text(self),
    {
        match self {
            MissedRunPolicy::Skip => "skip",
            MissedRunPolicy::RunOnce => "run_once",
            MissedRunPolicy::CatchUp => "catch_up",
        }
    }

    /// The policy a stored name denotes (the inverse of `as_str`).
    pub fn from_text(value: &str) -> (r: Result<Self, ScheduleError>)
        ensures
            r matches Ok(p) ==> missed_run_policy_text(p) == value@,
            r is Err <==> (value@ != "skip"@ && value@ != "run_once"@ && value@ != "catch_up"@),
            r matches Err(e) ==> e matches ScheduleError::InvalidMissedRunPolicy(t) && t@ == value@,
    {
        if str_eq(value, "skip") {
            Ok(MissedRunPolicy::Skip)
        } else if str_eq(value, "run_once") {
            Ok(MissedRunPolicy::RunOnce)
        } else if str_eq(value, "catch_up") {
            Ok(MissedRunPolicy::CatchUp)
        } else {
            Err(ScheduleError::InvalidMissedRunPolicy(owned(value)))
        }
    }
}

#[derive(Debug)]
pub enum ScheduleError {
    InvalidFormat(String),
    InvalidPayloadKind(String),
    InvalidMissedRunPolicy(String),
}

pub open spec fn schedule_error_text(e: ScheduleError) -> Seq<char> {
    match e {
        ScheduleError::InvalidFormat(t) => "invalid schedule format: "@ + t@,
        ScheduleError::InvalidPayloadKind(t) => "invalid payload kind: "@ + t@,
        ScheduleError::InvalidMissedRunPolicy(t) => "invalid missed-run policy: "@ + t@,
    }
}

impl ScheduleError {
    pub fn message(&self) -> (r: String)
        ensures
            r@ == schedule_error_text(*self),
    {
        match self {
            ScheduleError::InvalidFormat(t) => join2("invalid schedule format: ", t.as_str()),
            ScheduleError::InvalidPayloadKind(t) => join2("invalid payload kind: ", t.as_str()),
            ScheduleError::InvalidMissedRunPolicy(t) => join2(
                "invalid missed-run policy: ",
                t.as_str(),
            ),
        }
    }
}

/// When a job runs: after a fixed duration, at an `every ...` interval, by a
/// five-field cron expression, or once at an instant.
#[derive(Debug, Clone, PartialEq, Eq)]
pub enum Schedule {
    Duration(StdDuration),
    Every(String),
    Cron(String),
    Once(Timestamp),
}

pub ghost enum ScheduleView {
    Duration(StdDuration),
    Every(Seq<char>),
    Cron(Seq<char>),
    Once(Timestamp),
}

impl View for Schedule {
    type V = ScheduleView;

    open spec fn view(&self) -> ScheduleView {
        match self {
            Schedule::Duration(d) => ScheduleView::Duration(*d),
            Schedule::Every(s) => ScheduleView::Every(s@),
            Schedule::Cron(s) => ScheduleView::Cron(s@),
            Schedule::Once(t) => ScheduleView::Once(*t),
        }
    }
}

/// The seconds that a duration suffix stands for.
pub open spec fn suffix_factor(c: char) -> Option<nat> {
    if c == 's' {
        Some(1)
    } else if c == 'm' {
        Some(60)
    } else if c == 'h' {
        Some(3600)
    } else if c == 'd' {
        Some(86400)
    } else {
        None
    }
}

/// A duration written as a number and one of the suffixes `s`, `m`, `h`, `d`,
/// with whitespace around it allowed: "30m", "2h", "1d".
pub open spec fn duration_text(s: Seq<char>) -> Option<StdDuration> {
    let t = trim(s);
    if t.len() == 0 {
        None
    } else {
        match (parse_u64_text(t.drop_last()), suffix_factor(t.last())) {
            (Some(n), Some(f)) => Some(StdDuration { secs: (n * f) as u64, nanos: 0 }),
            _ => None,
        }
    }
}

/// Reading `s` as a duration neither splits inside a character (the last
/// character of the trimmed text is ASCII) nor overflows seconds in `u64`.
pub open spec fn duration_text_readable(s: Seq<char>) -> bool {
    let t = trim(s);
    t.len() > 0 ==> {
        &&& (t.last() as u32) < 128
        &&& (parse_u64_text(t.drop_last()) is Some && suffix_factor(t.last()) is Some) ==> (
        parse_u64_text(t.drop_last()).unwrap() * suffix_factor(t.last()).unwrap() <= u64::MAX)
    }
}

/// The interval of an `every <duration>` text.
pub open spec fn every_interval(s: Seq<char>) -> Option<StdDuration> {
    if starts_with(s, "every "@) {
        duration_text(s.skip(6))
    } else {
        None
    }
}

pub open spec fn every_text_readable(s: Seq<char>) -> bool {
    starts_with(s, "every "@) ==> duration_text_readable(s.skip(6))
}

pub open spec fn cron_char(c: char) -> bool {
    is_digit(c) || c == '*' || c == ',' || c == '/' || c == '-'
}

/// The number of maximal runs of non-whitespace characters in `s`.
pub open spec fn word_count(s: Seq<char>) -> nat
    decreases s.len(),
{
    if s.len() == 0 {
        0
    } else {
        word_count(s.drop_last()) + if !is_ws(s.last()) && (s.len() == 1 || is_ws(s[s.len() - 2])) {
            1nat
        } else {
            0nat
        }
    }
}

/// Five whitespace-separated fields made of digits and `* , / -`.
pub open spec fn is_cron_text(s: Seq<char>) -> bool {
    &&& word_count(s) == 5
    &&& forall|i: int| 0 <= i < s.len() && !is_ws(s[i]) ==> cron_char(#[trigger] s[i])
}

/// What `Schedule::parse` reads: a duration first, then an `every ` interval,
/// then a cron expression, then an RFC 3339 instant.
pub open spec fn parse_schedule(s: Seq<char>) -> Option<ScheduleView> {
    if duration_text(s) is Some {
        Some(ScheduleView::Duration(duration_text(s).unwrap()))
    } else if starts_with(s, "every "@) {
        Some(ScheduleView::Every(s))
    } else if is_cron_text(s) {
        Some(ScheduleView::Cron(s))
    } else if parsed_rfc3339(s) is Some {
        Some(ScheduleView::Once(parsed_rfc3339(s).unwrap()))
    } else {
        None
    }
}

fn suffix_seconds(c: char) -> (r: Option<u64>)
    ensures
        r matches Some(v) ==> suffix_factor(c) == Some(v as nat),
        r is None ==> suffix_factor(c) is None,
{
    if c == 's' {
        Some(1)
    } else if c == 'm' {
        Some(60)
    } else if c == 'h' {
        Some(3600)
    } else if c == 'd' {
        Some(86400)
    } else {
        None
    }
}

/// Reads a duration such as "30m".
pub fn parse_duration(input: &str) -> (r: Result<StdDuration, ()>)
    requires
        duration_text_readable(input@),
    ensures
        r matches Ok(d) ==> duration_text(input@) == Some(d),
        r is Err ==> duration_text(input@) is None,
{
    let t = trim_str(input);
    let n = t.unicode_len();
    if n == 0 {
        return Err(());
    }
    let suffix = t.get_char(n - 1);
    assert(t@.drop_last() =~= t@.subrange(0, n - 1));
    let num = match parse_u64_range(t, 0, n - 1) {
        Some(v) => v,
        None => return Err(()),
    };
    match suffix_seconds(suffix) {
        Some(f) => {
            assert(num * f <= u64::MAX);
            Ok(StdDuration { secs: num * f, nanos: 0 })
        },
        None => Err(()),
    }
}

/// Whether `input` can be read as a duration without splitting a character or
/// overflowing (the condition `parse_duration` asks).
pub fn duration_text_is_readable(input: &str) -> (r: bool)
    ensures
        r == duration_text_readable(input@),
{
    let t = trim_str(input);
    let n = t.unicode_len();
    if n == 0 {
        return true;
    }
    let suffix = t.get_char(n - 1);
    if suffix as u32 >= 128 {
        return false;
    }
    assert(t@.drop_last() =~= t@.subrange(0, n - 1));
    match (parse_u64_range(t, 0, n - 1), suffix_seconds(suffix)) {
        (Some(num), Some(f)) => num.checked_mul(f).is_some(),
        _ => true,
    }
}

/// The interval of an `every <duration>` text, if it has one.
pub fn parse_every_interval(input: &str) -> (r: Option<StdDuration>)
    requires
        every_text_readable(input@),
    ensures
        r == every_interval(input@),
{
    if starts_with_str(input, "every ") {
        proof {
            reveal_strlit("every ");
        }
        let n = input.unicode_len();
        let rest = input.substring_char(6, n);
        assert(rest@ == input@.skip(6));
        match parse_duration(rest) {
            Ok(d) => Some(d),
            Err(_) => None,
        }
    } else {
        None
    }
}

proof fn lemma_word_count_step(s: Seq<char>, i: int)
    requires
        0 <= i < s.len(),
    ensures
        word_count(s.take(i + 1)) == word_count(s.take(i)) + if !is_ws(s[i]) && (i == 0 || is_ws(
            s[i - 1],
        )) {
            1nat
        } else {
            0nat
        },
{
    assert(s.take(i + 1).drop_last() =~= s.take(i));
}

/// Whether `input` is a five-field cron expression.
pub fn is_cron_expression(input: &str) -> (r: bool)
    ensures
        r == is_cron_text(input@),
{
    let n = input.unicode_len();
    let mut words: usize = 0;
    let mut i: usize = 0;
    assert(input@.take(0) =~= Seq::<char>::empty());
    while i < n
        invariant
            n == input@.len(),
            i <= n,
            words == word_count(input@.take(i as int)),
            words <= i,
            forall|k: int| 0 <= k < i && !is_ws(input@[k]) ==> cron_char(#[trigger] input@[k]),
        decreases n - i,
    {
        let c = input.get_char(i);
        let ws = is_whitespace_char(c);
        if !ws && !(('0' <= c && c <= '9') || c == '*' || c == ',' || c == '/' || c == '-') {
            return false;
        }
        proof {
            lemma_word_count_step(input@, i as int);
        }
        if !ws && (i == 0 || is_whitespace_char(input.get_char(i - 1))) {
            words = words + 1;
        }
        i = i + 1;
    }
    assert(input@.take(n as int) =~= input@);
    words == 5
}

impl Schedule {
    /// Reads a schedule: "30m", "every 2h", "0 9 * * *" or "2026-06-01T09:00:00Z".
    pub fn parse(input: &str) -> (r: Result<Schedule, ScheduleError>)
        requires
            duration_text_readable(input@),
        ensures
            r matches Ok(s) ==> parse_schedule(input@) == Some(s@),
            r is Err ==> parse_schedule(input@) is None,
            r matches Err(e) ==> e matches ScheduleError::InvalidFormat(t) && t@ == input@,
    {
        if let Ok(d) = parse_duration(input) {
            return Ok(Schedule::Duration(d));
        }
        if starts_with_str(input, "every ") {
            return Ok(Schedule::Every(owned(input)));
        }
        if is_cron_expression(input) {
            return Ok(Schedule::Cron(owned(input)));
        }
        if let Some(t) = parse_rfc3339(input) {
            return Ok(Schedule::Once(t));
        }
        Err(ScheduleError::InvalidFormat(owned(input)))
    }
}

/// The span a schedule moves forward by; none for a one-shot instant and for a
/// duration too long for chrono. An `every` text without a readable interval,
/// and a cron expression, move by one hour.
pub open spec fn schedule_span(s: ScheduleView) -> Option<Span> {
    match s {
        ScheduleView::Duration(d) => span_of(d),
        ScheduleView::Once(_) => None,
        ScheduleView::Every(v) => match every_interval(v) {
            Some(d) => match span_of(d) {
                Some(sp) => Some(sp),
                None => Some(one_hour()),
            },
            None => Some(one_hour()),
        },
        ScheduleView::Cron(_) => Some(one_hour()),
    }
}

/// The first run strictly after `after`: a one-shot instant while it is still
/// ahead, otherwise `after` moved forward by the schedule's span.
pub open spec fn next_run(s: ScheduleView, after: Timestamp) -> Option<Timestamp> {
    match s {
        ScheduleView::Once(t) => if before(after, t) {
            Some(t)
        } else {
            None
        },
        _ => match schedule_span(s) {
            Some(sp) => add_span(after, sp),
            None => None,
        },
    }
}

/// Moving `after` forward stays inside chrono's range (beyond it chrono panics).
pub open spec fn next_run_defined(s: ScheduleView, after: Timestamp) -> bool {
    schedule_span(s) matches Some(sp) ==> add_span(after, sp) is Some
}

/// What a schedule's own text asks of reading it (an `every` text must read as a
/// duration without splitting a character or overflowing).
pub open spec fn schedule_readable(s: ScheduleView) -> bool {
    s matches ScheduleView::Every(v) ==> every_text_readable(v)
}

impl Schedule {
    /// Whether stepping this schedule reads its text safely (see `schedule_readable`).
    pub fn is_readable(&self) -> (r: bool)
        ensures
            r == schedule_readable(self@),
    {
        match self {
            Schedule::Every(v) => {
                let text = v.as_str();
                proof {
                    reveal_strlit("every ");
                }
                if starts_with_str(text, "every ") {
                    let rest = text.substring_char(6, text.unicode_len());
                    assert(rest@ =~= text@.skip(6));
                    duration_text_is_readable(rest)
                } else {
                    true
                }
            },
            _ => true,
        }
    }

    fn span(&self) -> (r: Option<Span>)
        requires
            schedule_readable(self@),
        ensures
            r == schedule_span(self@),
            r matches Some(sp) ==> crate::time::valid_span(sp),
    {
        match self {
            Schedule::Duration(d) => span_from_std(*d),
            Schedule::Once(_) => None,
            Schedule::Every(v) => match parse_every_interval(v.as_str()) {
                Some(d) => match span_from_std(d) {
                    Some(sp) => Some(sp),
                    None => Some(hour_span()),
                },
                None => Some(hour_span()),
            },
            Schedule::Cron(_) => Some(hour_span()),
        }
    }

    /// The first run strictly after `after`.
    pub fn next_after(&self, after: Timestamp) -> (r: Option<Timestamp>)
        requires
            valid_timestamp(after),
            schedule_readable(self@),
            next_run_defined(self@, after),
        ensures
            r == next_run(self@, after),
            r matches Some(t) ==> valid_timestamp(t) || self@ is Once,
    {
        if let Schedule::Once(t) = self {
            return if is_before(after, *t) {
                Some(*t)
            } else {
                None
            };
        }
        match self.span() {
            Some(sp) => match checked_add(after, sp) {
                Some(t) => Some(t),
                None => None,
            },
            None => None,
        }
    }

    /// Like `next_after`, for any instant: `None` when moving forward would
    /// leave chrono's range, else `Some` of the next run.
    pub fn checked_next_after(&self, after: Timestamp) -> (r: Option<Option<Timestamp>>)
        requires
            valid_timestamp(after),
            schedule_readable(self@),
        ensures
            r is None <==> !next_run_defined(self@, after),
            r matches Some(n) ==> n == next_run(self@, after),
    {
        match self.span() {
            Some(sp) => {
                if checked_add(after, sp).is_none() {
                    return None;
                }
            },
            None => {},
        }
        Some(self.next_after(after))
    }
}

} // verus!
