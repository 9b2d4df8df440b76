use std::collections::VecDeque;
use vstd::prelude::*;

use crate::state::AppState;
use crate::text::{chars_of, contains_text, find_text};

verus! {

broadcast use vstd::std_specs::vecdeque::group_vec_dequeue_axioms;

/// How the event log colours an entry.
#[derive(Clone, Copy, Debug, PartialEq, Eq, Structural)]
pub enum LogKind {
    /// The entry mentions `SCROLL`.
    Scroll,
    /// The entry mentions `DOWN` (and not `SCROLL`).
    Down,
    /// The entry mentions `UP` (and neither of the above).
    Up,
    /// Anything else.
    Other,
}

/// The kind of a log entry, by the first of `SCROLL`, `DOWN`, `UP` that it
/// contains.
pub open spec fn kind_of_entry(entry: Seq<char>) -> LogKind {
    if contains_text(entry, "SCROLL"@) {
        LogKind::Scroll
    } else if contains_text(entry, "DOWN"@) {
        LogKind::Down
    } else if contains_text(entry, "UP"@) {
        LogKind::Up
    } else {
        LogKind::Other
    }
}

/// The magnitude of `v`.
pub open spec fn magnitude(v: i64) -> nat {
    if v < 0 {
        (-v) as nat
    } else {
        v as nat
    }
}

/// The sum of the elements of `s`.
pub open spec fn seq_sum(s: Seq<i64>) -> int
    decreases s.len(),
{
    if s.len() == 0 {
        0
    } else {
        seq_sum(s.drop_last()) + s.last()
    }
}

/// The least element of `s` (0 for an empty sequence).
pub open spec fn seq_min(s: Seq<i64>) -> i64
    decreases s.len(),
{
    if s.len() == 0 {
        0
    } else if s.len() == 1 {
        s[0]
    } else {
        let m = seq_min(s.drop_last());
        if s.last() < m {
            s.last()
        } else {
            m
        }
    }
}

/// The greatest element of `s` (0 for an empty sequence).
pub open spec fn seq_max(s: Seq<i64>) -> i64
    decreases s.len(),
{
    if s.len() == 0 {
        0
    } else if s.len() == 1 {
        s[0]
    } else {
        let m = seq_max(s.drop_last());
        if s.last() > m {
            s.last()
        } else {
            m
        }
    }
}

/// `seq_min` of a non-empty sequence is one of its elements and no element
/// is below it; `seq_max` likewise from above.
pub proof fn lemma_seq_min_max_bounds(s: Seq<i64>)
    requires
        s.len() > 0,
    ensures
        s.contains(seq_min(s)),
        s.contains(seq_max(s)),
        forall|i: int| 0 <= i < s.len() ==> seq_min(s) <= #[trigger] s[i] <= seq_max(s),
    decreases s.len(),
{
    if s.len() == 1 {
        assert(s[0] == s[0]);
    } else {
        let p = s.drop_last();
        lemma_seq_min_max_bounds(p);
        let imin = choose|i: int| 0 <= i < p.len() && p[i] == seq_min(p);
        let imax = choose|i: int| 0 <= i < p.len() && p[i] == seq_max(p);
        assert(s[imin] == p[imin]);
        assert(s[imax] == p[imax]);
        assert(s[s.len() - 1] == s.last());
        assert forall|i: int| 0 <= i < s.len() implies seq_min(s) <= #[trigger] s[i] <= seq_max(s) by {
            if i < s.len() - 1 {
                assert(s[i] == p[i]);
            }
        }
    }
}

/// The summary the scroll-stats panel shows of a history: its least and
/// greatest element, the sum and the number of elements (all zero for an
/// empty history). The average is `sum / count`.
#[derive(Clone, Copy, Debug, PartialEq, Eq, Structural)]
pub struct HistoryStats {
    pub min: i64,
    pub max: i64,
    pub sum: i128,
    pub count: usize,
}

/// One line of the event log as the screen shows it: the entry and how it
/// is coloured.
pub struct LogLine<'a> {
    pub text: &'a str,
    pub kind: LogKind,
}

/// The title bar's text, which shows whether the log is paused and the keys.
pub fn title_text(paused: bool) -> (t: &'static str)
    ensures
        paused ==> t@ == "mousse [PAUSED — p: resume, c: clear, q: quit]"@,
        !paused ==> t@ == "mousse [p: pause, c: clear, q: quit]"@,
{
    if paused {
        "mousse [PAUSED — p: resume, c: clear, q: quit]"
    } else {
        "mousse [p: pause, c: clear, q: quit]"
    }
}

/// How the event log colours `entry`.
pub fn log_entry_kind(entry: &str) -> (kind: LogKind)
    ensures
        kind == kind_of_entry(entry@),
{
    let text = chars_of(entry);
    if find_text(&text, &chars_of("SCROLL")) {
        LogKind::Scroll
    } else if find_text(&text, &chars_of("DOWN")) {
        LogKind::Down
    } else if find_text(&text, &chars_of("UP")) {
        LogKind::Up
    } else {
        LogKind::Other
    }
}

/// The least and greatest element, the sum and the count of `history`; all
/// four are zero when it is empty.
pub fn history_stats(history: &VecDeque<i64>) -> (stats: HistoryStats)
    ensures
        stats.count == history@.len(),
        stats.sum == seq_sum(history@),
        stats.min == seq_min(history@),
        stats.max == seq_max(history@),
        history@.len() == 0 ==> stats.min == 0 && stats.max == 0,
        history@.len() > 0 ==> {
            &&& forall|i: int| 0 <= i < history@.len() ==> stats.min <= #[trigger] history@[i] <= stats.max
            &&& exists|i: int| 0 <= i < history@.len() && history@[i] == stats.min
            &&& exists|j: int| 0 <= j < history@.len() && history@[j] == stats.max
        },
{
    let n = history.len();
    if n == 0 {
        return HistoryStats { min: 0, max: 0, sum: 0, count: 0 };
    }
    let mut min = history[0];
    let mut max = history[0];
    let mut sum: i128 = 0;
    let mut i: usize = 0;
    while i < n
        invariant
            n == history@.len(),
            n > 0,
            i <= n,
            sum == seq_sum(history@.take(i as int)),
            -(i as int) * 0x8000_0000_0000_0000 <= sum <= (i as int) * 0x7fff_ffff_ffff_ffff,
            forall|k: int| 0 <= k < i ==> min <= #[trigger] history@[k] <= max,
            exists|k: int| 0 <= k < n && history@[k] == min,
            exists|k: int| 0 <= k < n && history@[k] == max,
        decreases n - i,
    {
        let v = history[i];
        assert(history@.take(i + 1).drop_last() =~= history@.take(i as int));
        sum = sum + v as i128;
        if v < min {
            min = v;
        }
        if v > max {
            max = v;
        }
        i = i + 1;
    }
    assert(history@.take(n as int) =~= history@);
    proof {
        let h = history@;
        lemma_seq_min_max_bounds(h);
        let a = choose|k: int| 0 <= k < n && h[k] == min;
        let b = choose|k: int| 0 <= k < h.len() && h[k] == seq_min(h);
        assert(min <= h[b] && seq_min(h) <= h[a]);
        let c = choose|k: int| 0 <= k < n && h[k] == max;
        let d = choose|k: int| 0 <= k < h.len() && h[k] == seq_max(h);
        assert(max >= h[d] && seq_max(h) >= h[c]);
    }
    HistoryStats { min, max, sum, count: n }
}

impl AppState {
    /// The bars of the scroll chart: the magnitude of each vertical delta in
    /// the history, oldest first.
    pub fn scroll_bars(&self) -> (bars: Vec<u64>)
        ensures
            bars@.len() == self.scroll_dy_history@.len(),
            forall|i: int| 0 <= i < bars@.len() ==> bars@[i] == magnitude(#[trigger] self.scroll_dy_history@[i]),
    {
        let n = self.scroll_dy_history.len();
        let mut bars: Vec<u64> = Vec::new();
        for i in 0..n
            invariant
                n == self.scroll_dy_history@.len(),
                bars@.len() == i,
                forall|k: int| 0 <= k < i ==> bars@[k] == magnitude(#[trigger] self.scroll_dy_history@[k]),
        {
            let v = self.scroll_dy_history[i];
            let m: u64 = if v < 0 { (0i128 - v as i128) as u64 } else { v as u64 };
            bars.push(m);
        }
        bars
    }

    /// The top of the scroll chart's scale: the greatest magnitude in the
    /// vertical history, and at least 1.
    pub fn scroll_chart_max(&self) -> (top: u64)
        ensures
            top >= 1,
            forall|i: int| 0 <= i < self.scroll_dy_history@.len() ==> magnitude(#[trigger] self.scroll_dy_history@[i]) <= top,
            top == 1 || exists|i: int| 0 <= i < self.scroll_dy_history@.len() && magnitude(self.scroll_dy_history@[i]) == top,
    {
        let n = self.scroll_dy_history.len();
        let mut top: u64 = 1;
        for i in 0..n
            invariant
                n == self.scroll_dy_history@.len(),
                top >= 1,
                forall|k: int| 0 <= k < i ==> magnitude(#[trigger] self.scroll_dy_history@[k]) <= top,
                top == 1 || exists|k: int| 0 <= k < n && magnitude(self.scroll_dy_history@[k]) == top,
        {
            let v = self.scroll_dy_history[i];
            let m: u64 = if v < 0 { (0i128 - v as i128) as u64 } else { v as u64 };
            if m > top {
                top = m;
            }
        }
        top
    }

    /// The lines of the event log panel: every entry, newest first, each with
    /// its colouring kind.
    pub fn log_lines_newest_first(&self) -> (lines: Vec<LogLine<'_>>)
        ensures
            lines@.len() == self@.event_log.len(),
            forall|i: int| #![trigger lines@[i]]
                0 <= i < lines@.len() ==> {
                    &&& lines@[i].text@ == self@.event_log[self@.event_log.len() - 1 - i]
                    &&& lines@[i].kind == kind_of_entry(lines@[i].text@)
                },
    {
        let n = self.event_log.len();
        let mut lines: Vec<LogLine<'_>> = Vec::new();
        for i in 0..n
            invariant
                n == self.event_log@.len(),
                lines@.len() == i,
                forall|k: int| #![trigger lines@[k]]
                    0 <= k < i ==> {
                        &&& lines@[k].text@ == self@.event_log[n - 1 - k]
                        &&& lines@[k].kind == kind_of_entry(lines@[k].text@)
                    },
        {
            let entry: &str = self.event_log[n - 1 - i].as_str();
            let kind = log_entry_kind(entry);
            lines.push(LogLine { text: entry, kind });
        }
        lines
    }

    /// The title bar's text for this state.
    pub fn title(&self) -> (t: &'static str)
        ensures
            self.paused ==> t@ == "mousse [PAUSED — p: resume, c: clear, q: quit]"@,
            !self.paused ==> t@ == "mousse [p: pause, c: clear, q: quit]"@,
    {
        title_text(self.paused)
    }
}

} // verus!
