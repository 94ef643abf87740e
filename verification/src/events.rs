//! Line buffering and event demultiplexing for one download invocation.
//!
//! Each spawned process contributes two line streams.  Every line read is
//! appended to an in-memory buffer (one per stream, order preserved), turned
//! into a log event tagged with the invocation's session identifier, and
//! offered to the progress parser.  A sink shared by several concurrent
//! invocations can recover each invocation's own ordered log by filtering on
//! the session identifier; [`lemma_session_demultiplex`] proves that.

use vstd::prelude::*;

use crate::progress::{parse_progress_line, spec_parse_progress, ProgressEvent};
use crate::text::{join_lines, spec_join_nl, spec_trim, trim, chars_string};

verus! {

/// Which pipe of the child process a line arrived on.
#[derive(Debug, Clone, Copy, PartialEq, Eq, Structural)]
pub enum StreamKind {
    Stdout,
    Stderr,
}

impl StreamKind {
    /// The label used for this stream in outward-facing events.
    pub fn label(&self) -> (r: String)
        ensures
            *self == StreamKind::Stdout ==> r@ == "stdout"@,
            *self == StreamKind::Stderr ==> r@ == "stderr"@,
    {
        match self {
            StreamKind::Stdout => String::from_str("stdout"),
            StreamKind::Stderr => String::from_str("stderr"),
        }
    }
}

/// The mathematical content of a log event.
pub ghost struct LogView {
    pub session: Seq<char>,
    pub stream: StreamKind,
    pub line: Seq<char>,
}

/// One line read from the child, tagged for an external sink shared by
/// several concurrent downloads.
#[derive(Debug, Clone)]
pub struct LogEvent {
    /// The session this line belongs to.
    pub session_id: String,
    /// The pipe it arrived on.
    pub stream: StreamKind,
    /// The line itself, without its newline.
    pub line: String,
}

impl View for LogEvent {
    type V = LogView;

    open spec fn view(&self) -> LogView {
        LogView { session: self.session_id@, stream: self.stream, line: self.line@ }
    }
}

/// The views of a sequence of log events.
pub open spec fn log_views(s: Seq<LogEvent>) -> Seq<LogView> {
    s.map_values(|e: LogEvent| e@)
}

/// The ordered buffer of the lines one stream has produced so far.
pub struct StreamBuffer {
    lines: Vec<String>,
}

impl View for StreamBuffer {
    type V = Seq<Seq<char>>;

    closed spec fn view(&self) -> Seq<Seq<char>> {
        self.lines.deep_view()
    }
}

/// The aggregated text of a finished stream: its buffered lines joined with
/// newlines, then trimmed.
pub open spec fn spec_aggregate(lines: Seq<Seq<char>>) -> Seq<char> {
    spec_trim(spec_join_nl(lines))
}

impl StreamBuffer {
    /// An empty buffer for a fresh invocation.
    pub fn new() -> (r: Self)
        ensures
            r@ == Seq::<Seq<char>>::empty(),
    {
        let r = StreamBuffer { lines: Vec::new() };
        proof {
            assert(r@ =~= Seq::<Seq<char>>::empty());
        }
        r
    }

    /// The number of lines buffered so far.
    pub fn len(&self) -> (r: usize)
        ensures
            r == self@.len(),
    {
        self.lines.len()
    }

    /// Accepts one line read from the stream: buffers it in arrival order
    /// and returns the log event for the sink together with the progress
    /// event, when the line is a recognized progress line.
    pub fn accept_line(
        &mut self,
        session_id: &String,
        stream: StreamKind,
        line: String,
    ) -> (r: (LogEvent, Option<ProgressEvent>))
        ensures
            final(self)@ == old(self)@.push(line@),
            r.0@ == (LogView { session: session_id@, stream, line: line@ }),
            match r.1 {
                Some(p) => spec_parse_progress(line@) == Some(p@),
                None => spec_parse_progress(line@) is None,
            },
    {
        let progress = parse_progress_line(line.as_str());
        let log = LogEvent { session_id: session_id.clone(), stream, line: line.clone() };
        let ghost dv0 = self.lines.deep_view();
        self.lines.push(line);
        proof {
            assert(self.lines.deep_view() =~= dv0.push(self.lines@.last()@));
        }
        (log, progress)
    }

    /// The aggregated text of the stream, for the final response.
    pub fn aggregated(&self) -> (r: String)
        ensures
            r@ == spec_aggregate(self@),
    {
        let joined = join_lines(&self.lines);
        let trimmed = trim(&joined);
        chars_string(&trimmed)
    }
}

/// `s` is an interleaving of `a` and `b`: it contains exactly the elements
/// of both, each in its original order.
pub open spec fn is_interleaving<T>(s: Seq<T>, a: Seq<T>, b: Seq<T>) -> bool
    decreases s.len(),
{
    if a.len() == 0 && b.len() == 0 {
        s.len() == 0
    } else {
        s.len() > 0 && ((a.len() > 0 && s[0] == a[0] && is_interleaving(
            s.subrange(1, s.len() as int),
            a.subrange(1, a.len() as int),
            b,
        )) || (b.len() > 0 && s[0] == b[0] && is_interleaving(
            s.subrange(1, s.len() as int),
            a,
            b.subrange(1, b.len() as int),
        )))
    }
}

/// The subsequence of `s` whose events carry the session identifier `sid`,
/// in order.
pub open spec fn spec_session_log(s: Seq<LogView>, sid: Seq<char>) -> Seq<LogView>
    decreases s.len(),
{
    if s.len() == 0 {
        Seq::empty()
    } else if s[0].session == sid {
        seq![s[0]] + spec_session_log(s.subrange(1, s.len() as int), sid)
    } else {
        spec_session_log(s.subrange(1, s.len() as int), sid)
    }
}

/// Two concurrent downloads with distinct session identifiers may emit to
/// one shared sink in any interleaving: filtering the sink's sequence by
/// either session identifier reconstructs that download's own ordered log
/// exactly.
pub proof fn lemma_session_demultiplex(
    s: Seq<LogView>,
    a: Seq<LogView>,
    b: Seq<LogView>,
    sid_a: Seq<char>,
    sid_b: Seq<char>,
)
    requires
        is_interleaving(s, a, b),
        forall|i: int| 0 <= i < a.len() ==> a[i].session == sid_a,
        forall|i: int| 0 <= i < b.len() ==> b[i].session == sid_b,
        sid_a != sid_b,
    ensures
        spec_session_log(s, sid_a) == a,
        spec_session_log(s, sid_b) == b,
    decreases s.len(),
{
    if a.len() == 0 && b.len() == 0 {
        assert(spec_session_log(s, sid_a) =~= a);
        assert(spec_session_log(s, sid_b) =~= b);
    } else {
        let s1 = s.subrange(1, s.len() as int);
        if a.len() > 0 && s[0] == a[0] && is_interleaving(s1, a.subrange(1, a.len() as int), b) {
            let a1 = a.subrange(1, a.len() as int);
            lemma_session_demultiplex(s1, a1, b, sid_a, sid_b);
            assert(s[0].session == sid_a);
            assert(seq![s[0]] + a1 =~= a);
            assert(spec_session_log(s, sid_b) == b);
        } else {
            let b1 = b.subrange(1, b.len() as int);
            lemma_session_demultiplex(s1, a, b1, sid_a, sid_b);
            assert(s[0].session == sid_b);
            assert(seq![s[0]] + b1 =~= b);
            assert(spec_session_log(s, sid_a) == a);
        }
    }
}

/// Keeps, in order, the events of `events` that carry the given session
/// identifier: the sink-side reconstruction of one download's log.
pub fn filter_by_session(events: &Vec<LogEvent>, session_id: &String) -> (r: Vec<LogEvent>)
    ensures
        log_views(r@) == spec_session_log(log_views(events@), session_id@),
{
    let mut r: Vec<LogEvent> = Vec::new();
    let mut i: usize = 0;
    proof {
        assert(log_views(events@).subrange(0, 0) =~= Seq::<LogView>::empty());
        assert(log_views(r@) =~= Seq::<LogView>::empty());
    }
    while i < events.len()
        invariant
            i <= events@.len(),
            log_views(r@) == spec_session_log(
                log_views(events@).subrange(0, i as int),
                session_id@,
            ),
        decreases events@.len() - i,
    {
        let e = &events[i];
        if e.session_id.eq(session_id) {
            r.push(LogEvent { session_id: e.session_id.clone(), stream: e.stream, line: e.line.clone() });
        }
        proof {
            lemma_session_log_snoc(log_views(events@), session_id@, i as int);
            assert(log_views(r@) =~= spec_session_log(
                log_views(events@).subrange(0, i + 1),
                session_id@,
            ));
        }
        i = i + 1;
    }
    proof {
        assert(log_views(events@).subrange(0, events@.len() as int) =~= log_views(events@));
    }
    r
}

/// Extending the scanned prefix by one event extends its session log by
/// that event exactly when the identifiers agree.
proof fn lemma_session_log_snoc(s: Seq<LogView>, sid: Seq<char>, i: int)
    requires
        0 <= i < s.len(),
    ensures
        spec_session_log(s.subrange(0, i + 1), sid) == if s[i].session == sid {
            spec_session_log(s.subrange(0, i), sid).push(s[i])
        } else {
            spec_session_log(s.subrange(0, i), sid)
        },
    decreases i,
{
    let p1 = s.subrange(0, i + 1);
    let p0 = s.subrange(0, i);
    if i == 0 {
        assert(p0 =~= Seq::<LogView>::empty());
        assert(p1 =~= seq![s[0]]);
        assert(p1.subrange(1, 1) =~= Seq::<LogView>::empty());
        if s[0].session == sid {
            assert(spec_session_log(p1, sid) =~= spec_session_log(p0, sid).push(s[0]));
        }
    } else {
        lemma_session_log_snoc(s.subrange(1, s.len() as int), sid, i - 1);
        assert(s.subrange(1, s.len() as int).subrange(0, i) =~= p1.subrange(1, i + 1));
        assert(s.subrange(1, s.len() as int).subrange(0, i - 1) =~= p0.subrange(1, i));
        assert(s.subrange(1, s.len() as int)[i - 1] == s[i]);
        if p1[0].session == sid {
            assert(spec_session_log(p1, sid) == seq![s[0]] + spec_session_log(
                p1.subrange(1, i + 1),
                sid,
            ));
            assert(spec_session_log(p0, sid) == seq![s[0]] + spec_session_log(
                p0.subrange(1, i),
                sid,
            ));
            if s[i].session == sid {
                assert(seq![s[0]] + spec_session_log(p0.subrange(1, i), sid).push(s[i])
                    =~= (seq![s[0]] + spec_session_log(p0.subrange(1, i), sid)).push(s[i]));
            }
        } else {
            assert(spec_session_log(p1, sid) == spec_session_log(p1.subrange(1, i + 1), sid));
            assert(spec_session_log(p0, sid) == spec_session_log(p0.subrange(1, i), sid));
        }
    }
}

} // verus!
