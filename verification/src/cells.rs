//! Painting a row of terminal cells: the row is cut into runs of cells that
//! share their colors, so that each run is painted with one fill and one text.

use vstd::prelude::*;
use crate::color::Color;
use crate::text::{all_whitespace, is_blank};

verus! {

/// The colors of one terminal cell.
#[derive(Debug, Clone, Copy, PartialEq, Eq, Structural)]
pub struct CellStyle {
    pub fg: Color,
    pub bg: Color,
}

/// A run of `len` cells starting at column `start`.
#[derive(Debug, Clone, Copy, PartialEq, Eq, Structural)]
pub struct Run {
    pub start: usize,
    pub len: usize,
}

/// The column just after a run.
pub open spec fn run_end(r: Run) -> int {
    r.start + r.len
}

/// `runs` cuts the row `cells` into maximal runs of equal style: they are
/// non-empty, follow each other from column 0 to the end of the row, every
/// cell of a run has the style of its first cell, and the cell just after a
/// run (if any) has another style.
pub open spec fn is_style_runs(cells: Seq<CellStyle>, runs: Seq<Run>) -> bool {
    &&& (runs.len() == 0 <==> cells.len() == 0)
    &&& runs.len() > 0 ==> runs[0].start == 0
    &&& runs.len() > 0 ==> run_end(runs.last()) == cells.len()
    &&& forall|i: int| 0 <= i < runs.len() ==> #[trigger] runs[i].len >= 1 && run_end(runs[i]) <= cells.len()
    &&& forall|i: int| 0 <= i < runs.len() - 1 ==> run_end(#[trigger] runs[i]) == runs[i + 1].start
    &&& forall|i: int, j: int|
        0 <= i < runs.len() && runs[i].start <= j < run_end(runs[i]) ==> #[trigger] cells[j] == cells[#[trigger] runs[i].start as int]
    &&& forall|i: int|
        0 <= i < runs.len() && run_end(#[trigger] runs[i]) < cells.len() ==> cells[run_end(runs[i])] != cells[runs[i].start as int]
}

/// Cut a row of cells into the maximal runs of cells with equal colors,
/// from left to right.
pub fn style_runs(cells: &Vec<CellStyle>) -> (runs: Vec<Run>)
    ensures
        is_style_runs(cells@, runs@),
{
    let n = cells.len();
    let mut runs: Vec<Run> = Vec::new();
    let mut x: usize = 0;
    while x < n
        invariant
            n == cells@.len(),
            x <= n,
            (runs@.len() == 0 <==> x == 0),
            runs@.len() > 0 ==> runs@[0].start == 0,
            runs@.len() > 0 ==> run_end(runs@.last()) == x,
            forall|i: int| 0 <= i < runs@.len() ==> #[trigger] runs@[i].len >= 1 && run_end(runs@[i]) <= x,
            forall|i: int| 0 <= i < runs@.len() - 1 ==> run_end(#[trigger] runs@[i]) == runs@[i + 1].start,
            forall|i: int, j: int|
                0 <= i < runs@.len() && runs@[i].start <= j < run_end(runs@[i]) ==> #[trigger] cells@[j] == cells@[#[trigger] runs@[i].start as int],
            forall|i: int|
                0 <= i < runs@.len() && run_end(#[trigger] runs@[i]) < n ==> cells@[run_end(runs@[i])] != cells@[runs@[i].start as int],
        decreases n - x,
    {
        let mut width: usize = 1;
        while x + width < n && cells[x + width] == cells[x]
            invariant
                n == cells@.len(),
                x < n,
                1 <= width,
                x + width <= n,
                forall|j: int| x <= j < x + width ==> #[trigger] cells@[j] == cells@[x as int],
            decreases n - x - width,
        {
            width = width + 1;
        }
        let ghost old_runs = runs@;
        runs.push(Run { start: x, len: width });
        proof {
            assert(runs@[runs@.len() - 1] == Run { start: x, len: width });
            assert forall|i: int| 0 <= i < runs@.len() - 1 implies run_end(#[trigger] runs@[i]) == runs@[i + 1].start by {
                if i < old_runs.len() - 1 {
                    assert(runs@[i] == old_runs[i]);
                    assert(runs@[i + 1] == old_runs[i + 1]);
                } else {
                    assert(runs@[i] == old_runs.last());
                }
            }
            assert forall|i: int, j: int|
                0 <= i < runs@.len() && runs@[i].start <= j < run_end(runs@[i]) implies #[trigger] cells@[j] == cells@[#[trigger] runs@[i].start as int] by {
                if i < old_runs.len() {
                    assert(runs@[i] == old_runs[i]);
                }
            }
            assert forall|i: int|
                0 <= i < runs@.len() && run_end(#[trigger] runs@[i]) < n implies cells@[run_end(runs@[i])] != cells@[runs@[i].start as int] by {
                if i < old_runs.len() {
                    assert(runs@[i] == old_runs[i]);
                }
            }
        }
        x = x + width;
    }
    runs
}

proof fn lemma_runs_agree_upto(cells: Seq<CellStyle>, a: Seq<Run>, b: Seq<Run>, k: int)
    requires
        is_style_runs(cells, a),
        is_style_runs(cells, b),
        0 <= k <= a.len(),
        k <= b.len(),
    ensures
        forall|i: int| 0 <= i < k ==> a[i] == b[i],
    decreases k,
{
    if k > 0 {
        lemma_runs_agree_upto(cells, a, b, k - 1);
        let i = k - 1;
        let s = a[i].start;
        if i == 0 {
            assert(a[0].start == 0 && b[0].start == 0);
        } else {
            assert(run_end(a[i - 1]) == a[i].start);
            assert(run_end(b[i - 1]) == b[i].start);
        }
        assert(a[i].start == b[i].start);
        assert(a[i].len >= 1 && b[i].len >= 1);
        if a[i].len < b[i].len {
            let j = run_end(a[i]);
            assert(j < cells.len());
            assert(cells[j] == cells[b[i].start as int]);
            assert(false);
        }
        if b[i].len < a[i].len {
            let j = run_end(b[i]);
            assert(j < cells.len());
            assert(cells[j] == cells[a[i].start as int]);
            assert(false);
        }
    }
}

/// The maximal runs of a row are unique: any two ways of cutting a row into
/// maximal runs of equal style are the same.
pub proof fn lemma_style_runs_unique(cells: Seq<CellStyle>, a: Seq<Run>, b: Seq<Run>)
    requires
        is_style_runs(cells, a),
        is_style_runs(cells, b),
    ensures
        a == b,
{
    let k = if a.len() <= b.len() { a.len() as int } else { b.len() as int };
    lemma_runs_agree_upto(cells, a, b, k);
    if a.len() < b.len() {
        if a.len() == 0 {
            assert(cells.len() == 0);
        } else {
            assert(a[k - 1] == b[k - 1]);
            assert(run_end(b[k - 1]) == cells.len());
            assert(run_end(b[k - 1]) == b[k].start);
            assert(b[k].len >= 1 && run_end(b[k]) <= cells.len());
        }
    }
    if b.len() < a.len() {
        if b.len() == 0 {
            assert(cells.len() == 0);
        } else {
            assert(a[k - 1] == b[k - 1]);
            assert(run_end(a[k - 1]) == cells.len());
            assert(run_end(a[k - 1]) == a[k].start);
            assert(a[k].len >= 1 && run_end(a[k]) <= cells.len());
        }
    }
    assert(a =~= b);
}

/// The text of the cells `start .. start + len`: their symbols one after the other.
pub open spec fn joined_symbols(symbols: Seq<String>, start: int, len: int) -> Seq<char>
    decreases len,
{
    if len <= 0 {
        Seq::empty()
    } else {
        joined_symbols(symbols, start, len - 1) + symbols[start + len - 1]@
    }
}

/// The text of a run: the symbols of its cells, left to right.
pub fn run_text(symbols: &Vec<String>, run: Run) -> (text: String)
    requires
        run_end(run) <= symbols@.len(),
    ensures
        text@ == joined_symbols(symbols@, run.start as int, run.len as int),
{
    let mut text = String::new();
    let n = symbols.len();
    let mut i: usize = 0;
    while i < run.len
        invariant
            n == symbols@.len(),
            run_end(run) <= symbols@.len(),
            i <= run.len,
            text@ == joined_symbols(symbols@, run.start as int, i as int),
        decreases run.len - i,
    {
        text.append(symbols[run.start + i].as_str());
        i = i + 1;
    }
    text
}

/// Whether a run's text gets drawn: only when something is left of it once
/// white space is trimmed away.
pub fn draws_text(text: &str) -> (r: bool)
    ensures
        r == !all_whitespace(text@),
{
    !is_blank(text)
}

} // verus!
