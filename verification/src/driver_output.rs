//! Capture of recent browser-driver output for failure diagnostics: the capture mode, the
//! bounded tail of output lines, and the text shown next to a failure.
use crate::env::{env_flag_enabled, env_flag_value_enabled};
use crate::primitives::NonZeroCount;
use crate::text::{decimal, parse_usize, parse_usize_chars, push_decimal, trim_chars, trimmed};
use std::collections::VecDeque;
use vstd::prelude::*;
use vstd::string::*;

verus! {

/// Environment variable that switches browser-driver output capture on.
pub const DEFAULT_BROWSER_DRIVER_OUTPUT_ENV: &'static str = "BROWSER_TEST_DRIVER_OUTPUT";

/// Environment variable holding the number of retained browser-driver output lines.
pub const DEFAULT_BROWSER_DRIVER_OUTPUT_TAIL_LINES_ENV: &'static str = "BROWSER_TEST_DRIVER_OUTPUT_TAIL_LINES";

/// Number of retained output lines when capture is switched on by the environment and the
/// tail-line variable is unset or unreadable.
pub const DEFAULT_BROWSER_DRIVER_OUTPUT_TAIL_LINES: usize = 200;

/// Browser-driver output capture mode.
#[derive(Debug, Clone, Copy, PartialEq, Eq, Hash, Structural)]
pub enum DriverOutputConfig {
    /// Do not capture browser-driver output.
    Disabled,
    /// Capture the last `usize` browser-driver output lines; `0` disables capture.
    TailLines(usize),
    /// Read capture settings from `BROWSER_TEST_DRIVER_OUTPUT` and
    /// `BROWSER_TEST_DRIVER_OUTPUT_TAIL_LINES`.
    FromEnv,
}

/// Former name of [`DriverOutputConfig`], kept for existing callers.
pub type BrowserDriverOutputConfig = DriverOutputConfig;

/// Resolved browser-driver output capture mode.
#[derive(Debug, Clone, Copy, PartialEq, Eq, Hash, Structural)]
pub enum ResolvedDriverOutputConfig {
    /// Do not capture browser-driver output.
    Disabled,
    /// Capture recent browser-driver output lines.
    TailLines(NonZeroCount),
}

/// Whether `r` is the capture mode for the raw tail-line count `n`.
pub open spec fn is_resolved_count(r: ResolvedDriverOutputConfig, n: nat) -> bool {
    match r {
        ResolvedDriverOutputConfig::Disabled => n == 0,
        ResolvedDriverOutputConfig::TailLines(c) => c.view_value() == n,
    }
}

/// The tail-line count that the environment asks for, given the value of
/// `BROWSER_TEST_DRIVER_OUTPUT_TAIL_LINES` (`None` when unset): its trimmed decimal value, or
/// 200 when it is unset or not a number.
pub open spec fn env_tail_line_count(tail_value: Option<Seq<char>>) -> nat {
    match tail_value {
        None => DEFAULT_BROWSER_DRIVER_OUTPUT_TAIL_LINES as nat,
        Some(v) => match parse_usize(trimmed(v)) {
            Some(n) => n,
            None => DEFAULT_BROWSER_DRIVER_OUTPUT_TAIL_LINES as nat,
        },
    }
}

/// The raw tail-line count that the environment asks for, given the values of the two
/// variables: zero (capture off) unless the flag is on.
pub open spec fn env_requested_count(flag_value: Option<Seq<char>>, tail_value: Option<Seq<char>>) -> nat {
    if env_flag_value_enabled(flag_value) {
        env_tail_line_count(tail_value)
    } else {
        0
    }
}

/// The view of an optional string slice.
pub open spec fn opt_str_view(v: Option<&str>) -> Option<Seq<char>> {
    match v {
        Some(s) => Some(s@),
        None => None,
    }
}

impl DriverOutputConfig {
    /// The raw tail-line count this config asks for, given the two environment values.
    pub open spec fn requested_count(
        self,
        flag_value: Option<Seq<char>>,
        tail_value: Option<Seq<char>>,
    ) -> nat {
        match self {
            DriverOutputConfig::Disabled => 0,
            DriverOutputConfig::TailLines(n) => n as nat,
            DriverOutputConfig::FromEnv => env_requested_count(flag_value, tail_value),
        }
    }

    /// Disable browser-driver output capture.
    pub fn disabled() -> (r: Self)
        ensures
            r == DriverOutputConfig::Disabled,
    {
        DriverOutputConfig::Disabled
    }

    /// Capture the last `tail_lines` browser-driver output lines; `0` disables capture.
    pub fn tail_lines(tail_lines: usize) -> (r: Self)
        ensures
            r == DriverOutputConfig::TailLines(tail_lines),
    {
        DriverOutputConfig::TailLines(tail_lines)
    }

    /// Capture the last `tail_lines` browser-driver output lines; `0` disables capture.
    pub fn new(tail_lines: usize) -> (r: Self)
        ensures
            r == DriverOutputConfig::TailLines(tail_lines),
    {
        Self::tail_lines(tail_lines)
    }

    /// Read capture settings from the browser-driver output environment variables.
    pub fn from_env() -> (r: Self)
        ensures
            r == DriverOutputConfig::FromEnv,
    {
        DriverOutputConfig::FromEnv
    }

    /// Whether resolving this config reads the environment.
    pub fn reads_env(&self) -> (r: bool)
        ensures
            r == (*self == DriverOutputConfig::FromEnv),
    {
        match self {
            DriverOutputConfig::FromEnv => true,
            _ => false,
        }
    }

    /// Resolve this config to an immediate capture mode.
    ///
    /// `flag_value` and `tail_value` are the values of `BROWSER_TEST_DRIVER_OUTPUT` and
    /// `BROWSER_TEST_DRIVER_OUTPUT_TAIL_LINES` (`None` when unset); only an environment-backed
    /// config looks at them.
    pub fn resolve(&self, flag_value: Option<&str>, tail_value: Option<&str>) -> (r:
        ResolvedDriverOutputConfig)
        ensures
            is_resolved_count(
                r,
                self.requested_count(opt_str_view(flag_value), opt_str_view(tail_value)),
            ),
    {
        match self {
            DriverOutputConfig::Disabled => ResolvedDriverOutputConfig::Disabled,
            DriverOutputConfig::TailLines(n) => ResolvedDriverOutputConfig::from_tail_lines(*n),
            DriverOutputConfig::FromEnv => resolved_from_env_values(flag_value, tail_value),
        }
    }
}

/// The capture mode that the environment asks for.
fn resolved_from_env_values(flag_value: Option<&str>, tail_value: Option<&str>) -> (r:
    ResolvedDriverOutputConfig)
    ensures
        is_resolved_count(r, env_requested_count(opt_str_view(flag_value), opt_str_view(tail_value))),
{
    if !env_flag_enabled(flag_value) {
        return ResolvedDriverOutputConfig::Disabled;
    }
    let tail_lines = match tail_value {
        None => DEFAULT_BROWSER_DRIVER_OUTPUT_TAIL_LINES,
        Some(v) => {
            let t = trim_chars(v);
            match parse_usize_chars(&t) {
                Some(n) => n,
                None => DEFAULT_BROWSER_DRIVER_OUTPUT_TAIL_LINES,
            }
        },
    };
    ResolvedDriverOutputConfig::from_tail_lines(tail_lines)
}

impl ResolvedDriverOutputConfig {
    /// Disable browser-driver output capture.
    pub fn disabled() -> (r: Self)
        ensures
            r == ResolvedDriverOutputConfig::Disabled,
    {
        ResolvedDriverOutputConfig::Disabled
    }

    /// Capture the last `tail_lines` browser-driver output lines.
    pub fn tail_lines(tail_lines: NonZeroCount) -> (r: Self)
        ensures
            r == ResolvedDriverOutputConfig::TailLines(tail_lines),
    {
        ResolvedDriverOutputConfig::TailLines(tail_lines)
    }

    /// Capture the last `tail_lines` browser-driver output lines.
    pub fn new(tail_lines: NonZeroCount) -> (r: Self)
        ensures
            r == ResolvedDriverOutputConfig::TailLines(tail_lines),
    {
        Self::tail_lines(tail_lines)
    }

    /// The capture mode for a raw tail-line count: `0` disables capture.
    pub fn from_tail_lines(tail_lines: usize) -> (r: Self)
        ensures
            is_resolved_count(r, tail_lines as nat),
    {
        match NonZeroCount::new(tail_lines) {
            Some(c) => ResolvedDriverOutputConfig::TailLines(c),
            None => ResolvedDriverOutputConfig::Disabled,
        }
    }

    /// Whether browser-driver output should be captured.
    pub fn is_enabled(self) -> (r: bool)
        ensures
            r == (self is TailLines),
    {
        match self {
            ResolvedDriverOutputConfig::TailLines(_) => true,
            ResolvedDriverOutputConfig::Disabled => false,
        }
    }

    /// Number of recent output lines retained when capture is enabled.
    pub fn tail_line_count(self) -> (r: Option<NonZeroCount>)
        ensures
            r == (match self {
                ResolvedDriverOutputConfig::Disabled => None,
                ResolvedDriverOutputConfig::TailLines(c) => Some(c),
            }),
    {
        match self {
            ResolvedDriverOutputConfig::Disabled => None,
            ResolvedDriverOutputConfig::TailLines(c) => Some(c),
        }
    }
}

impl Default for ResolvedDriverOutputConfig {
    fn default() -> (r: Self)
        ensures
            r == ResolvedDriverOutputConfig::Disabled,
    {
        ResolvedDriverOutputConfig::Disabled
    }
}

impl DriverOutputConfig {
    /// The unresolved config that asks for exactly what `config` resolved to.
    pub fn from_resolved(config: ResolvedDriverOutputConfig) -> (r: Self)
        ensures
            r == (match config {
                ResolvedDriverOutputConfig::Disabled => DriverOutputConfig::Disabled,
                ResolvedDriverOutputConfig::TailLines(c) => DriverOutputConfig::TailLines(
                    c.view_value() as usize,
                ),
            }),
    {
        match config {
            ResolvedDriverOutputConfig::Disabled => DriverOutputConfig::Disabled,
            ResolvedDriverOutputConfig::TailLines(c) => DriverOutputConfig::TailLines(c.get()),
        }
    }
}

impl From<ResolvedDriverOutputConfig> for DriverOutputConfig {
    fn from(config: ResolvedDriverOutputConfig) -> (r: Self) {
        DriverOutputConfig::from_resolved(config)
    }
}

impl vstd::std_specs::convert::FromSpecImpl<ResolvedDriverOutputConfig> for DriverOutputConfig {
    open spec fn obeys_from_spec() -> bool {
        true
    }

    open spec fn from_spec(config: ResolvedDriverOutputConfig) -> Self {
        match config {
            ResolvedDriverOutputConfig::Disabled => DriverOutputConfig::Disabled,
            ResolvedDriverOutputConfig::TailLines(c) => DriverOutputConfig::TailLines(
                c.view_value() as usize,
            ),
        }
    }
}

/// Resolving a config made from a resolved config gives that resolved config back.
pub proof fn lemma_resolve_from_resolved_round_trip(
    config: ResolvedDriverOutputConfig,
    flag_value: Option<Seq<char>>,
    tail_value: Option<Seq<char>>,
)
    ensures
        is_resolved_count(
            config,
            (match config {
                ResolvedDriverOutputConfig::Disabled => DriverOutputConfig::Disabled,
                ResolvedDriverOutputConfig::TailLines(c) => DriverOutputConfig::TailLines(
                    c.view_value() as usize,
                ),
            }).requested_count(flag_value, tail_value),
        ),
{
    if let ResolvedDriverOutputConfig::TailLines(c) = config {
        c.lemma_fits_usize();
    }
}

/// The output stream a browser-driver output line came from.
#[derive(Debug, Clone, Copy, PartialEq, Eq, Hash, Structural)]
pub enum DriverOutputSource {
    /// The browser-driver process stdout stream.
    Stdout,
    /// The browser-driver process stderr stream.
    Stderr,
}

/// The label shown for an output source.
pub open spec fn source_label_text(source: DriverOutputSource) -> Seq<char> {
    match source {
        DriverOutputSource::Stdout => "stdout"@,
        DriverOutputSource::Stderr => "stderr"@,
    }
}

/// The label shown for an output source.
pub fn source_label(source: DriverOutputSource) -> (r: &'static str)
    ensures
        r@ == source_label_text(source),
{
    match source {
        DriverOutputSource::Stdout => "stdout",
        DriverOutputSource::Stderr => "stderr",
    }
}

/// One line of browser-driver output.
#[derive(Debug, PartialEq, Eq)]
pub struct CapturedLine {
    /// The output stream this line came from.
    pub source: DriverOutputSource,
    /// Callback-order sequence number across stdout and stderr.
    pub sequence: u64,
    /// The line without its trailing newline.
    pub line: String,
}

impl Clone for CapturedLine {
    fn clone(&self) -> (r: Self)
        ensures
            r == *self,
    {
        CapturedLine { source: self.source, sequence: self.sequence, line: self.line.clone() }
    }
}

/// The bounded tail of browser-driver output seen so far, and how many lines were seen.
pub struct DriverOutputCapture {
    tail_capacity: NonZeroCount,
    total_lines: usize,
    tail_lines: VecDeque<CapturedLine>,
    seen: Ghost<Seq<CapturedLine>>,
}

/// The last `n` lines of `lines` (all of them if there are fewer).
pub open spec fn last_lines(lines: Seq<CapturedLine>, n: nat) -> Seq<CapturedLine> {
    if lines.len() <= n {
        lines
    } else {
        lines.subrange(lines.len() - n, lines.len() as int)
    }
}

impl DriverOutputCapture {
    /// Every line pushed so far, in order.
    pub closed spec fn seen(&self) -> Seq<CapturedLine> {
        self.seen@
    }

    /// The lines currently retained.
    pub closed spec fn retained(&self) -> Seq<CapturedLine> {
        self.tail_lines@
    }

    /// The number of lines retained at most.
    pub closed spec fn capacity(&self) -> nat {
        self.tail_capacity.view_value()
    }

    /// The capture's internal consistency: it retains the last lines it has seen, as many as
    /// its capacity allows, and counts every line.
    pub closed spec fn wf(&self) -> bool {
        &&& self.total_lines == self.seen@.len()
        &&& self.tail_lines@ == last_lines(self.seen@, self.tail_capacity.view_value())
    }

    /// A capture keeps exactly the most recent lines it has seen, never more than its capacity,
    /// and counts every line.
    pub proof fn lemma_retains_bounded_tail(&self)
        requires
            self.wf(),
        ensures
            self.retained().len() <= self.capacity(),
            self.retained().len() == if self.seen().len() <= self.capacity() {
                self.seen().len()
            } else {
                self.capacity()
            },
            forall|k: int|
                0 <= k < self.retained().len() ==> #[trigger] self.retained()[k] == self.seen()[self.seen().len()
                    - self.retained().len() + k],
    {
    }

    /// A capture made by [`Self::new`] and fed lines `l_1..l_k` by [`Self::push`] has seen
    /// exactly those lines, and its snapshot counts `k` lines and keeps the last
    /// `min(k, capacity)` of them in push order, never more than the capacity.
    pub proof fn lemma_snapshot_after_pushes(&self, lines: Seq<CapturedLine>)
        requires
            self.wf(),
            self.seen() == lines,
            self.capacity() > 0,
        ensures
            last_lines(self.seen(), self.capacity()).len() <= self.capacity(),
            last_lines(self.seen(), self.capacity()) == lines.subrange(
                lines.len() - last_lines(lines, self.capacity()).len(),
                lines.len() as int,
            ),
            last_lines(lines, self.capacity()).len() == if lines.len() <= self.capacity() {
                lines.len()
            } else {
                self.capacity()
            },
    {
        if lines.len() <= self.capacity() {
            assert(lines.subrange(0, lines.len() as int) =~= lines);
        }
    }

    /// The text rendered from this capture's snapshot shows its most recent lines in push
    /// order, never more than the capacity; when lines were dropped, its header says that it
    /// shows the last `capacity` of all the lines seen, and otherwise it has no such line.
    pub proof fn lemma_rendered_snapshot(&self)
        requires
            self.wf(),
        ensures
            self.seen().len() > self.capacity() ==> driver_output_text(
                self.seen().len(),
                last_lines(self.seen(), self.capacity()),
            ) == "Recent browser driver output\n"@ + "note: output comes from one shared browser-driver process; parallel tests may interleave lines.\n"@
                + "showing the last "@ + decimal(self.capacity()) + " of "@ + decimal(
                self.seen().len(),
            ) + " captured line(s).\n"@ + lines_text(
                self.seen().subrange(
                    self.seen().len() - self.capacity(),
                    self.seen().len() as int,
                ),
            ),
            self.seen().len() <= self.capacity() ==> driver_output_text(
                self.seen().len(),
                last_lines(self.seen(), self.capacity()),
            ) == "Recent browser driver output\n"@ + "note: output comes from one shared browser-driver process; parallel tests may interleave lines.\n"@
                + lines_text(self.seen()),
    {
        lemma_header_counts_shown_lines(self.seen().len(), last_lines(self.seen(), self.capacity()));
    }

    /// A capture retaining the last `tail_lines` lines, with nothing seen yet.
    pub fn new(tail_lines: NonZeroCount) -> (r: Self)
        ensures
            r.wf(),
            r.seen() == Seq::<CapturedLine>::empty(),
            r.retained() == Seq::<CapturedLine>::empty(),
            r.capacity() == tail_lines.view_value(),
    {
        DriverOutputCapture {
            tail_capacity: tail_lines,
            total_lines: 0,
            tail_lines: VecDeque::new(),
            seen: Ghost(Seq::empty()),
        }
    }

    /// How many lines have been seen.
    pub fn total_lines(&self) -> (r: usize)
        requires
            self.wf(),
        ensures
            r == self.seen().len(),
    {
        self.total_lines
    }

    /// Records one more output line, dropping the oldest retained line when the tail is full.
    pub fn push(&mut self, line: CapturedLine)
        requires
            old(self).wf(),
            old(self).seen().len() < usize::MAX,
        ensures
            final(self).wf(),
            final(self).seen() == old(self).seen().push(line),
            final(self).capacity() == old(self).capacity(),
            final(self).retained() == last_lines(final(self).seen(), final(self).capacity()),
            final(self).retained() == (if old(self).retained().len() < old(self).capacity() {
                old(self).retained().push(line)
            } else {
                old(self).retained().drop_first().push(line)
            }),
    {
        let ghost old_seen = self.seen@;
        let ghost new_seen = old_seen.push(line);
        let cap = self.tail_capacity.get();
        self.total_lines = self.total_lines + 1;
        // The tail never holds more than `cap` lines, so at most one line has to go.
        if self.tail_lines.len() >= cap {
            self.tail_lines.pop_front();
            proof {
                assert(self.tail_lines@ =~= old_seen.subrange(old_seen.len() - cap + 1, old_seen.len() as int));
            }
        }
        self.tail_lines.push_back(line);
        proof {
            self.seen@ = new_seen;
            assert(self.tail_lines@ =~= last_lines(new_seen, cap as nat));
        }
    }

    /// A copy of what has been captured so far.
    pub fn snapshot(&self) -> (r: DriverOutputSnapshot)
        requires
            self.wf(),
        ensures
            r.total_lines == self.seen().len(),
            r.tail_capacity == self.capacity(),
            r.tail_lines@ == self.retained(),
            r.tail_lines@ == last_lines(self.seen(), self.capacity()),
            r.tail_lines@.len() <= r.tail_capacity,
    {
        let n = self.tail_lines.len();
        let mut lines: Vec<CapturedLine> = Vec::new();
        let mut i: usize = 0;
        while i < n
            invariant
                i <= n,
                n == self.tail_lines@.len(),
                lines@ == self.tail_lines@.subrange(0, i as int),
            decreases n - i,
        {
            lines.push(self.tail_lines[i].clone());
            proof {
                assert(self.tail_lines@.subrange(0, i + 1) == self.tail_lines@.subrange(
                    0,
                    i as int,
                ).push(self.tail_lines@[i as int]));
            }
            i = i + 1;
        }
        proof {
            assert(self.tail_lines@.subrange(0, n as int) == self.tail_lines@);
        }
        DriverOutputSnapshot {
            total_lines: self.total_lines,
            tail_capacity: self.tail_capacity.get(),
            tail_lines: lines,
        }
    }
}

/// Snapshot of browser-driver output captured so far.
#[derive(Debug, Clone, PartialEq, Eq)]
pub struct DriverOutputSnapshot {
    /// Total number of output lines seen by the capture.
    pub total_lines: usize,
    /// Maximum number of recent output lines retained.
    pub tail_capacity: usize,
    /// Recent output lines in callback sequence order.
    pub tail_lines: Vec<CapturedLine>,
}

impl DriverOutputSnapshot {
    /// Whether the retained output tail is empty.
    pub fn is_empty(&self) -> (r: bool)
        ensures
            r == (self.tail_lines@.len() == 0),
    {
        self.tail_lines.len() == 0
    }
}

/// How one output line is shown: `[sequence source] line`.
pub open spec fn line_text(l: CapturedLine) -> Seq<char> {
    "["@ + decimal(l.sequence as nat) + " "@ + source_label_text(l.source) + "] "@ + l.line@ + "\n"@
}

/// How a run of output lines is shown, one per line.
pub open spec fn lines_text(lines: Seq<CapturedLine>) -> Seq<char>
    decreases lines.len(),
{
    if lines.len() == 0 {
        Seq::empty()
    } else {
        lines_text(lines.drop_last()) + line_text(lines.last())
    }
}

/// Retained lines are shown one per line and in order: the text of two runs of lines one
/// after the other is the text of the first followed by that of the second, and a single line
/// is shown as `[sequence source] line` with the source `stdout` or `stderr`.
pub proof fn lemma_lines_shown_in_order(a: Seq<CapturedLine>, b: Seq<CapturedLine>, l: CapturedLine)
    ensures
        lines_text(a + b) == lines_text(a) + lines_text(b),
        lines_text(seq![l]) == "["@ + decimal(l.sequence as nat) + " "@ + (match l.source {
            DriverOutputSource::Stdout => "stdout"@,
            DriverOutputSource::Stderr => "stderr"@,
        }) + "] "@ + l.line@ + "\n"@,
    decreases b.len(),
{
    if b.len() > 0 {
        lemma_lines_shown_in_order(a, b.drop_last(), l);
        assert((a + b).drop_last() =~= a + b.drop_last());
        assert((a + b).last() == b.last());
        assert(lines_text(a + b) =~= lines_text(a) + lines_text(b));
    } else {
        assert(a + b =~= a);
        assert(lines_text(a + b) =~= lines_text(a) + lines_text(b));
    }
    let one = seq![l];
    assert(one.drop_last() =~= Seq::<CapturedLine>::empty());
    assert(one.last() == l);
    assert(lines_text(one.drop_last()) == Seq::<char>::empty());
    assert(lines_text(one) =~= line_text(l));
}

/// The text attached to a failure: a heading, a note on interleaving, how much of the output
/// is shown when lines were dropped, and the retained lines.
pub open spec fn driver_output_text(total_lines: nat, lines: Seq<CapturedLine>) -> Seq<char> {
    "Recent browser driver output\n"@
        + "note: output comes from one shared browser-driver process; parallel tests may interleave lines.\n"@
        + (if total_lines > lines.len() {
        "showing the last "@ + decimal(lines.len()) + " of "@ + decimal(total_lines)
            + " captured line(s).\n"@
    } else {
        Seq::empty()
    }) + lines_text(lines)
}

/// The header of the attached text counts the lines it shows: when fewer lines are shown than
/// were seen, the text is the heading, the note, "showing the last `k` of `n` captured
/// line(s)." with `k` the number of lines that follow and `n` the number seen, then the lines;
/// when every line is shown, the heading and the note are followed by the lines directly.
pub proof fn lemma_header_counts_shown_lines(total_lines: nat, lines: Seq<CapturedLine>)
    ensures
        total_lines > lines.len() ==> driver_output_text(total_lines, lines) == "Recent browser driver output\n"@
            + "note: output comes from one shared browser-driver process; parallel tests may interleave lines.\n"@
            + "showing the last "@ + decimal(lines.len()) + " of "@ + decimal(total_lines)
            + " captured line(s).\n"@ + lines_text(lines),
        total_lines <= lines.len() ==> driver_output_text(total_lines, lines) == "Recent browser driver output\n"@
            + "note: output comes from one shared browser-driver process; parallel tests may interleave lines.\n"@
            + lines_text(lines),
{
    if total_lines > lines.len() {
        assert(driver_output_text(total_lines, lines) =~= "Recent browser driver output\n"@
            + "note: output comes from one shared browser-driver process; parallel tests may interleave lines.\n"@
            + "showing the last "@ + decimal(lines.len()) + " of "@ + decimal(total_lines)
            + " captured line(s).\n"@ + lines_text(lines));
    } else {
        assert(driver_output_text(total_lines, lines) =~= "Recent browser driver output\n"@
            + "note: output comes from one shared browser-driver process; parallel tests may interleave lines.\n"@
            + lines_text(lines));
    }
}

/// Renders the text attached to a failure for a snapshot of captured output.
pub fn render_driver_output(snapshot: &DriverOutputSnapshot) -> (r: String)
    ensures
        r@ == driver_output_text(snapshot.total_lines as nat, snapshot.tail_lines@),
{
    let mut s = String::from_str("Recent browser driver output\n");
    s.append(
        "note: output comes from one shared browser-driver process; parallel tests may interleave lines.\n",
    );
    let n = snapshot.tail_lines.len();
    if snapshot.total_lines > n {
        s.append("showing the last ");
        push_decimal(&mut s, n as u64);
        s.append(" of ");
        push_decimal(&mut s, snapshot.total_lines as u64);
        s.append(" captured line(s).\n");
    }
    let ghost head = s@;
    let mut i: usize = 0;
    while i < n
        invariant
            i <= n,
            n == snapshot.tail_lines@.len(),
            s@ == head + lines_text(snapshot.tail_lines@.subrange(0, i as int)),
        decreases n - i,
    {
        let l = &snapshot.tail_lines[i];
        s.append("[");
        push_decimal(&mut s, l.sequence);
        s.append(" ");
        s.append(source_label(l.source));
        s.append("] ");
        s.append(l.line.as_str());
        s.append("\n");
        proof {
            let p = snapshot.tail_lines@.subrange(0, i + 1);
            assert(p.drop_last() == snapshot.tail_lines@.subrange(0, i as int));
            assert(p.last() == *l);
        }
        i = i + 1;
    }
    proof {
        assert(snapshot.tail_lines@.subrange(0, n as int) == snapshot.tail_lines@);
    }
    s
}

/// The text to attach to a failure report, if any: none without a capture or when nothing was
/// retained.
pub fn driver_output_attachment(snapshot: Option<&DriverOutputSnapshot>) -> (r: Option<String>)
    ensures
        r is Some <==> (snapshot matches Some(s) && s.tail_lines@.len() > 0),
        r matches Some(t) ==> (snapshot matches Some(s) && t@ == driver_output_text(
            s.total_lines as nat,
            s.tail_lines@,
        )),
{
    match snapshot {
        None => None,
        Some(s) => {
            if s.is_empty() {
                None
            } else {
                Some(render_driver_output(s))
            }
        },
    }
}

} // verus!
