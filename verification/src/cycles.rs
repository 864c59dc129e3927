//! Cycle detection over the run-length-compressed history of selected facts.
//!
//! A cycle of size `s` exists when the last `s` history entries repeat the
//! `s` entries before them, entry for entry (fact and count alike). The
//! detector finds the smallest such size, counts how often the repeating
//! unit occurs at the tail, and reports the finding with a severity that
//! grows with the amount of history the cycle covers.

use crate::iteration_summary::IterationSummary;
use crate::iteration_summary::SummaryView;
use crate::render::decimal_chars;
use crate::render::push_decimal;
use vstd::arithmetic::div_mod::lemma_fundamental_div_mod;
use vstd::prelude::*;

verus! {

/// A repeating pattern at the tail of a fact history: the smallest repeating
/// unit covers `size` entries and occurs `repeat` times in a row.
#[derive(Debug, PartialEq, Eq, Structural, Clone, Copy)]
pub struct Cycle {
    pub size: usize,
    pub repeat: usize,
}

/// The payload of a cycle diagnostic.
pub open spec fn cycle_description(c: Cycle) -> Seq<char> {
    "Cycle { size: "@ + decimal_chars(c.size as nat) + ", repeat: "@ + decimal_chars(
        c.repeat as nat,
    ) + " }"@
}

impl Cycle {
    /// Renders the cycle for the diagnostic line.
    pub fn describe(&self) -> (r: String)
        ensures
            r@ == cycle_description(*self),
    {
        let mut s = String::new();
        s.push_str("Cycle { size: ");
        push_decimal(&mut s, self.size);
        s.push_str(", repeat: ");
        push_decimal(&mut s, self.repeat);
        s.push_str(" }");
        proof {
            assert(s@ =~= cycle_description(*self));
        }
        s
    }
}

/// Two history entries are interchangeable when they name the same fact and
/// carry the same repetition count.
pub open spec fn entry_eq(a: (String, u32), b: (String, u32)) -> bool {
    a@ == b@
}

/// The last `size` entries of `h` repeat the `size` entries before them.
pub open spec fn is_cycle(h: Seq<(String, u32)>, size: int) -> bool {
    &&& 1 <= size
    &&& 2 * size <= h.len()
    &&& forall|j: int|
        h.len() - size <= j < h.len() ==> #[trigger] entry_eq(h[j], h[j - size])
}

/// The last `len` entries of `h` are periodic with period `size`: every
/// entry among them equals the entry `size` places earlier.
pub open spec fn tail_periodic(h: Seq<(String, u32)>, size: int, len: int) -> bool {
    &&& 0 <= len <= h.len()
    &&& forall|j: int|
        h.len() - len + size <= j < h.len() ==> #[trigger] entry_eq(h[j], h[j - size])
}

/// What a reported cycle says about the history it was found in: `size` is
/// the smallest period that verifies at the tail, and `repeat` is the
/// maximal number of whole periods the tail holds.
pub open spec fn cycle_report(h: Seq<(String, u32)>, c: Cycle) -> bool {
    &&& is_cycle(h, c.size as int)
    &&& forall|t: int| 0 < t < c.size ==> !is_cycle(h, t)
    &&& 2 <= c.repeat
    &&& c.size * c.repeat <= h.len()
    &&& tail_periodic(h, c.size as int, c.size * c.repeat)
    &&& c.size * (c.repeat + 1) <= h.len() ==> !tail_periodic(
        h,
        c.size as int,
        c.size * (c.repeat + 1),
    )
}

/// Histories with fewer than two entries can hold no cycle.
pub proof fn lemma_short_history_has_no_cycle(h: Seq<(String, u32)>)
    requires
        h.len() < 2,
    ensures
        forall|t: int| !is_cycle(h, t),
{
}

fn entries_equal(a: &(String, u32), b: &(String, u32)) -> (r: bool)
    ensures
        r == entry_eq(*a, *b),
{
    a.0 == b.0 && a.1 == b.1
}

fn check_period(history: &[(String, u32)], size: usize) -> (r: bool)
    requires
        1 <= size,
        2 * size <= history@.len(),
    ensures
        r == is_cycle(history@, size as int),
{
    let n = history.len();
    let mut j = n - size;
    while j < n
        invariant
            n == history@.len(),
            1 <= size,
            2 * size <= n,
            n - size <= j <= n,
            forall|k: int| n - size <= k < j ==> #[trigger] entry_eq(history@[k], history@[k - size]),
        decreases n - j,
    {
        if !entries_equal(&history[j], &history[j - size]) {
            return false;
        }
        j += 1;
    }
    true
}

/// Finds the smallest verified period at the tail of `history`, scanning
/// candidate sizes upward so that the first hit is the minimum.
pub fn find_smallest_cycle_size(history: &[(String, u32)]) -> (r: Option<usize>)
    ensures
        r matches Some(s) ==> is_cycle(history@, s as int) && (forall|t: int|
            0 < t < s ==> !is_cycle(history@, t)),
        r is None ==> forall|t: int| !is_cycle(history@, t),
{
    let n = history.len();
    if n < 2 {
        return None;
    }
    let mut size: usize = 1;
    while size <= n / 2
        invariant
            n == history@.len(),
            2 <= n,
            1 <= size,
            forall|t: int| 0 < t < size ==> !is_cycle(history@, t),
        decreases n - size,
    {
        if check_period(history, size) {
            return Some(size);
        }
        size += 1;
    }
    proof {
        assert forall|t: int| !is_cycle(history@, t) by {
            if t >= size {
                assert(2 * t > n);
            }
        }
    }
    None
}

/// Counts how many whole periods of `cycle_size` entries end at the tail of
/// `history`, by scanning backward as long as entries keep matching the
/// entry one period earlier.
pub fn find_number_of_cycles(history: &[(String, u32)], cycle_size: usize) -> (r: usize)
    requires
        is_cycle(history@, cycle_size as int),
    ensures
        2 <= r,
        cycle_size * r <= history@.len(),
        tail_periodic(history@, cycle_size as int, cycle_size * r),
        cycle_size * (r + 1) <= history@.len() ==> !tail_periodic(
            history@,
            cycle_size as int,
            cycle_size * (r + 1),
        ),
{
    let n = history.len();
    let mut m = n;
    while m > cycle_size && entries_equal(&history[m - 1], &history[m - 1 - cycle_size])
        invariant
            n == history@.len(),
            is_cycle(history@, cycle_size as int),
            cycle_size <= m <= n,
            forall|j: int| m <= j < n ==> #[trigger] entry_eq(history@[j], history@[j - cycle_size]),
        decreases m,
    {
        m -= 1;
    }
    proof {
        assert(m <= n - cycle_size) by {
            if m > n - cycle_size {
                assert(entry_eq(history@[m - 1], history@[m - 1 - cycle_size]));
            }
        }
    }
    let streak = n - m + cycle_size;
    let r = streak / cycle_size;
    proof {
        let s = cycle_size as int;
        let d = streak as int;
        lemma_fundamental_div_mod(d, s);
        assert(d == s * (d / s) + d % s);
        assert(s * (r as int + 1) == s * (r as int) + s) by (nonlinear_arith);
        assert(s * (r as int) <= d);
        assert(s * (r as int + 1) > d);
        assert(2 <= r) by {
            assert(d >= 2 * s);
            assert(s * (r as int) >= d - s + 1);
            assert(s * (r as int) > s * 1);
            assert(r as int > 1) by (nonlinear_arith)
                requires
                    s * (r as int) > s * 1,
                    s >= 1,
            ;
        }
        assert(cycle_size * r <= history@.len());
        assert(tail_periodic(history@, s, s * (r as int))) by {
            assert(n - s * (r as int) + s >= m as int);
        }
        if s * (r as int + 1) <= n {
            assert(m != cycle_size) by {
                if m == cycle_size {
                    assert(d == n as int);
                }
            }
            let j0 = m - 1;
            assert(!entry_eq(history@[j0 as int], history@[j0 - s]));
            assert(n - (s * (r as int + 1)) + s <= j0 as int);
            assert(!tail_periodic(history@, s, s * (r as int + 1)));
        }
    }
    r
}

/// Finds the smallest cycle at the tail of `history` together with its
/// maximal repeat count, or reports that no cycle ends at the tail.
pub fn find_cycles(history: &[(String, u32)]) -> (r: Option<Cycle>)
    ensures
        r matches Some(c) ==> cycle_report(history@, c),
        r is None ==> forall|t: int| !is_cycle(history@, t),
        history@.len() < 2 ==> r is None,
{
    let smallest_cycle_size = find_smallest_cycle_size(history);
    if let Some(smallest_cycle_size) = smallest_cycle_size {
        let number_of_cycles = find_number_of_cycles(history, smallest_cycle_size);
        return Some(Cycle { size: smallest_cycle_size, repeat: number_of_cycles });
    }
    None
}

/// Where the suppression window of a cycle found at history length `n`
/// ends: one full period further, saturated at the machine limit.
pub open spec fn cycle_end(n: int, size: int) -> int {
    if n + size <= usize::MAX {
        n + size
    } else {
        usize::MAX as int
    }
}

/// How reporting a cycle extends a summary: by severity of the stretch of
/// history the cycle covers, with short cycles not reported at all.
pub open spec fn reported(v: SummaryView, c: Cycle) -> SummaryView {
    if c.size * c.repeat > 1000 {
        SummaryView { error: v.error.push(("Cycle"@, cycle_description(c))), ..v }
    } else if c.size * c.repeat > 100 {
        SummaryView { warning: v.warning.push(("Cycle"@, cycle_description(c))), ..v }
    } else if c.size * c.repeat > 10 {
        SummaryView { info: v.info.push(("Cycle"@, cycle_description(c))), ..v }
    } else {
        v
    }
}

/// The spec-level mirror of [`CycleDetector`], one field per field.
pub ghost struct DetectorView {
    pub last_cycle: Option<Cycle>,
    pub last_cycle_end: usize,
    pub last_history_length: usize,
}

/// Finds cycles at the tail of the growing fact history and reports each
/// at most once: after a report at history length `n` with period `size`,
/// no further diagnostic is emitted before the history reaches `n + size`.
pub struct CycleDetector {
    last_cycle: Option<Cycle>,
    last_cycle_end: usize,
    last_history_length: usize,
}

impl View for CycleDetector {
    type V = DetectorView;

    closed spec fn view(&self) -> DetectorView {
        DetectorView {
            last_cycle: self.last_cycle,
            last_cycle_end: self.last_cycle_end,
            last_history_length: self.last_history_length,
        }
    }
}

/// A fresh detection pass runs only when the history has grown and no
/// previously reported cycle may still be running its current repeat.
pub open spec fn detection_active(v: DetectorView, n: int) -> bool {
    &&& n != v.last_history_length
    &&& !(v.last_cycle is Some && n < v.last_cycle_end)
}

impl CycleDetector {
    pub fn new() -> (r: Self)
        ensures
            r@ == (DetectorView { last_cycle: None, last_cycle_end: 0, last_history_length: 0 }),
    {
        CycleDetector { last_cycle: None, last_cycle_end: 0, last_history_length: 0 }
    }

    /// Runs cycle detection over the current fact history and attaches a
    /// severity-tagged diagnostic to the summary when a long enough cycle
    /// ends at the tail. An unchanged history, or one still inside the
    /// suppression window of the last reported cycle, changes nothing.
    pub fn check_cycles(&mut self, history: &[(String, u32)], printer: &mut IterationSummary)
        ensures
            history@.len() == old(self)@.last_history_length ==> final(self)@ == old(self)@
                && final(printer)@ == old(printer)@,
            history@.len() != old(self)@.last_history_length && old(self)@.last_cycle is Some
                && history@.len() < old(self)@.last_cycle_end ==> final(self)@ == old(self)@
                && final(printer)@ == old(printer)@,
            detection_active(old(self)@, history@.len() as int) ==> match final(self)@.last_cycle {
                None => {
                    &&& forall|t: int| !is_cycle(history@, t)
                    &&& final(self)@.last_cycle_end == old(self)@.last_cycle_end
                    &&& final(self)@.last_history_length == old(self)@.last_history_length
                    &&& final(printer)@ == old(printer)@
                },
                Some(c) => {
                    &&& cycle_report(history@, c)
                    &&& final(self)@.last_cycle_end == cycle_end(history@.len() as int, c.size as int)
                    &&& final(self)@.last_history_length == history@.len()
                    &&& final(printer)@ == reported(old(printer)@, c)
                },
            },
    {
        // Nothing to do when the history has not changed since the last
        // check; the caller keeps handing the same, growing history.
        if self.last_history_length == history.len() {
            return ;
        }
        // A previously reported cycle may still be running its current
        // repeat: stay silent until the history has passed the window,
        // rather than re-reporting a sub-period at every new entry.
        if self.last_cycle.is_some() {
            if history.len() < self.last_cycle_end {
                return ;
            }
            self.last_cycle = None;
        }
        if let Some(cycle) = find_cycles(history) {
            self.last_cycle = Some(cycle);
            self.last_cycle_end = if history.len() <= usize::MAX - cycle.size {
                history.len() + cycle.size
            } else {
                usize::MAX
            };
            self.last_history_length = history.len();

            let covered = cycle.size * cycle.repeat;
            if covered > 1000 {
                printer.add_error("Cycle".to_owned(), cycle.describe());
                return ;
            }
            if covered > 100 {
                printer.add_warning("Cycle".to_owned(), cycle.describe());
                return ;
            }
            if covered > 10 {
                printer.add_info("Cycle".to_owned(), cycle.describe());
            }
        }
    }
}

} // verus!

